//! Backend-agnostic store error type. The service layer maps it onto RPC
//! codes (not found, already exists, failed precondition, internal).

use vstd::prelude::*;

pub use crate::text::concat;

verus! {

#[derive(Debug)]
pub enum StoreError {
    /// The requested row doesn't exist.
    NotFound(String),
    /// A unique constraint was violated (e.g. duplicate email signup).
    AlreadyExists(String),
    /// A domain rule was violated: removing the last owner, deleting a
    /// non-empty billing account.
    Conflict(String),
    /// The underlying storage failed.
    Backend(String),
}

pub enum StoreErrorView {
    NotFound(Seq<char>),
    AlreadyExists(Seq<char>),
    Conflict(Seq<char>),
    Backend(Seq<char>),
}

impl View for StoreError {
    type V = StoreErrorView;

    open spec fn view(&self) -> StoreErrorView {
        match self {
            StoreError::NotFound(s) => StoreErrorView::NotFound(s@),
            StoreError::AlreadyExists(s) => StoreErrorView::AlreadyExists(s@),
            StoreError::Conflict(s) => StoreErrorView::Conflict(s@),
            StoreError::Backend(s) => StoreErrorView::Backend(s@),
        }
    }
}

pub type StoreResult<T> = Result<T, StoreError>;

impl StoreError {
    pub fn not_found(s: String) -> (e: StoreError)
        ensures
            e@ == StoreErrorView::NotFound(s@),
    {
        StoreError::NotFound(s)
    }

    pub fn already_exists(s: String) -> (e: StoreError)
        ensures
            e@ == StoreErrorView::AlreadyExists(s@),
    {
        StoreError::AlreadyExists(s)
    }

    pub fn conflict(s: String) -> (e: StoreError)
        ensures
            e@ == StoreErrorView::Conflict(s@),
    {
        StoreError::Conflict(s)
    }

    pub fn backend(s: String) -> (e: StoreError)
        ensures
            e@ == StoreErrorView::Backend(s@),
    {
        StoreError::Backend(s)
    }

    /// The error's message: its kind and what it concerns.
    pub fn to_string(&self) -> (s: String)
        ensures
            s@ == store_error_message(self@),
    {
        let (head, body) = match self {
            StoreError::NotFound(s) => ("not found: ", s),
            StoreError::AlreadyExists(s) => ("already exists: ", s),
            StoreError::Conflict(s) => ("conflict: ", s),
            StoreError::Backend(s) => ("backend: ", s),
        };
        let mut out = String::from_str(head);
        out.append(body.as_str());
        proof {
            reveal_strlit("not found: ");
            reveal_strlit("already exists: ");
            reveal_strlit("conflict: ");
            reveal_strlit("backend: ");
        }
        out
    }
}

pub open spec fn store_error_message(e: StoreErrorView) -> Seq<char> {
    match e {
        StoreErrorView::NotFound(s) => "not found: "@ + s,
        StoreErrorView::AlreadyExists(s) => "already exists: "@ + s,
        StoreErrorView::Conflict(s) => "conflict: "@ + s,
        StoreErrorView::Backend(s) => "backend: "@ + s,
    }
}


} // verus!
