//! The verified session carried by a request: who the caller is, which
//! billing account (and optionally organization) they act in, with what
//! role, how they signed in, and when the session expires.

use vstd::prelude::*;

use crate::domain::enums::AuthMethodView;
use crate::domain::{AuthMethod, BillingAccountId, Duplicate, OrgId, Role, UserId};

verus! {

#[derive(Clone, Debug, PartialEq, Eq)]
pub struct SessionContext {
    pub user: UserId,
    pub email: String,
    pub billing: BillingAccountId,
    pub org: Option<OrgId>,
    pub role: Role,
    pub auth_method: AuthMethod,
    pub exp_unix: i64,
}

pub struct SessionView {
    pub user: Seq<char>,
    pub email: Seq<char>,
    pub billing: Seq<char>,
    pub org: Option<Seq<char>>,
    pub role: Role,
    pub auth_method: AuthMethodView,
    pub exp_unix: i64,
}

impl View for SessionContext {
    type V = SessionView;

    open spec fn view(&self) -> SessionView {
        SessionView {
            user: self.user@,
            email: self.email@,
            billing: self.billing@,
            org: match self.org {
                Some(o) => Some(o@),
                None => None,
            },
            role: self.role,
            auth_method: self.auth_method@,
            exp_unix: self.exp_unix,
        }
    }
}

impl Duplicate for SessionContext {
    fn duplicate(&self) -> (r: Self) {
        SessionContext {
            user: self.user.duplicate(),
            email: self.email.duplicate(),
            billing: self.billing.duplicate(),
            org: self.org.duplicate(),
            role: self.role,
            auth_method: self.auth_method.duplicate(),
            exp_unix: self.exp_unix,
        }
    }
}

} // verus!
