//! Errors of billing providers.

use vstd::prelude::*;

verus! {

#[derive(Debug)]
pub enum BillingError {
    NotFound(String),
    ProviderError(String),
}

pub enum BillingErrorView {
    NotFound(Seq<char>),
    ProviderError(Seq<char>),
}

impl View for BillingError {
    type V = BillingErrorView;

    open spec fn view(&self) -> BillingErrorView {
        match self {
            BillingError::NotFound(s) => BillingErrorView::NotFound(s@),
            BillingError::ProviderError(s) => BillingErrorView::ProviderError(s@),
        }
    }
}

pub type BillingResult<T> = Result<T, BillingError>;

impl BillingError {
    pub fn not_found(s: String) -> (e: BillingError)
        ensures
            e@ == BillingErrorView::NotFound(s@),
    {
        BillingError::NotFound(s)
    }

    pub fn provider(s: String) -> (e: BillingError)
        ensures
            e@ == BillingErrorView::ProviderError(s@),
    {
        BillingError::ProviderError(s)
    }

    /// The error's message: its kind and what it concerns.
    pub fn to_string(&self) -> (s: String)
        ensures
            s@ == match self@ {
                BillingErrorView::NotFound(m) => "not found: "@ + m,
                BillingErrorView::ProviderError(m) => "provider error: "@ + m,
            },
    {
        let (head, body) = match self {
            BillingError::NotFound(s) => ("not found: ", s),
            BillingError::ProviderError(s) => ("provider error: ", s),
        };
        let mut out = String::from_str(head);
        out.append(body.as_str());
        proof {
            reveal_strlit("not found: ");
            reveal_strlit("provider error: ");
        }
        out
    }
}

} // verus!
