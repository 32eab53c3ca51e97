//! Billing: subscriptions and invoices behind a provider seam.

pub mod error;
pub mod provider;

pub use provider::{BillingProvider, InMemoryBillingProvider};
