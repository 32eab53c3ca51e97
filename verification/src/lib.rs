//! Multi-tenant SaaS authentication and authorization: sessions and
//! one-shot tokens as macaroons, users, billing accounts, organizations,
//! memberships, invitations and SSO configuration.

pub mod auth;
pub mod billing;
pub mod domain;
pub mod routes;
pub mod services;
pub mod state;
pub mod store;
pub mod telemetry;
pub mod text;
pub mod time;

