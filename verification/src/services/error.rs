//! The errors RPC handlers answer with: a status code and a message, and
//! how the errors of the layers below map onto them.

use vstd::prelude::*;

use crate::auth::password::{password_error_message, PasswordError, PasswordErrorView};
use crate::auth::tokens::{token_error_message, TokenError, TokenErrorView};
use crate::billing::error::{BillingError, BillingErrorView};
use crate::store::error::{StoreError, StoreErrorView};

verus! {

/// The status codes the handlers use.
#[derive(Clone, Copy, Debug, PartialEq, Eq, Structural)]
pub enum Code {
    InvalidArgument,
    NotFound,
    AlreadyExists,
    PermissionDenied,
    FailedPrecondition,
    Internal,
    Unauthenticated,
}

/// An RPC error: a status code and a human-readable message.
#[derive(Debug)]
pub struct RpcError {
    pub code: Code,
    pub message: String,
}

pub struct RpcErrorView {
    pub code: Code,
    pub message: Seq<char>,
}

impl View for RpcError {
    type V = RpcErrorView;

    open spec fn view(&self) -> RpcErrorView {
        RpcErrorView { code: self.code, message: self.message@ }
    }
}

pub open spec fn rpc_err(code: Code, message: Seq<char>) -> RpcErrorView {
    RpcErrorView { code, message }
}

/// A handler result with the error by its view.
pub open spec fn rpc_result<T>(r: Result<T, RpcError>) -> Result<T, RpcErrorView> {
    match r {
        Ok(x) => Ok(x),
        Err(e) => Err(e@),
    }
}

/// The error `code` with the message `message`, as a failed result.
pub open spec fn fails<T>(code: Code, message: Seq<char>) -> Result<T, RpcErrorView> {
    Err(rpc_err(code, message))
}

impl RpcError {
    pub fn new(code: Code, message: String) -> (e: RpcError)
        ensures
            e@ == rpc_err(code, message@),
    {
        RpcError { code, message }
    }

    pub fn msg(code: Code, message: &str) -> (e: RpcError)
        ensures
            e@ == rpc_err(code, message@),
    {
        RpcError { code, message: String::from_str(message) }
    }
}

// ----- store, billing, token and password errors -----

/// How a store error reaches the caller: a missing row as not found, a
/// duplicate as already exists, a broken rule as a failed precondition
/// with its message, a storage failure as an internal error.
pub open spec fn store_rpc(e: StoreErrorView) -> RpcErrorView {
    match e {
        StoreErrorView::NotFound(_) => rpc_err(Code::NotFound, "resource not found"@),
        StoreErrorView::AlreadyExists(_) => rpc_err(Code::AlreadyExists, "resource already exists"@),
        StoreErrorView::Conflict(s) => rpc_err(Code::FailedPrecondition, s),
        StoreErrorView::Backend(_) => rpc_err(Code::Internal, "internal error"@),
    }
}

/// A store result with its error mapped as `store_rpc` says.
pub open spec fn via_store<T>(r: Result<T, StoreErrorView>) -> Result<T, RpcErrorView> {
    match r {
        Ok(x) => Ok(x),
        Err(e) => Err(store_rpc(e)),
    }
}

pub fn from_store_error(e: StoreError) -> (r: RpcError)
    ensures
        r@ == store_rpc(e@),
{
    match e {
        StoreError::NotFound(_) => RpcError::msg(Code::NotFound, "resource not found"),
        StoreError::AlreadyExists(_) => RpcError::msg(Code::AlreadyExists, "resource already exists"),
        StoreError::Conflict(s) => RpcError::new(Code::FailedPrecondition, s),
        StoreError::Backend(_) => RpcError::msg(Code::Internal, "internal error"),
    }
}

pub open spec fn billing_rpc(e: BillingErrorView) -> RpcErrorView {
    match e {
        BillingErrorView::NotFound(_) => rpc_err(Code::NotFound, "resource not found"@),
        BillingErrorView::ProviderError(_) => rpc_err(Code::Internal, "billing provider error"@),
    }
}

pub fn from_billing_error(e: BillingError) -> (r: RpcError)
    ensures
        r@ == billing_rpc(e@),
{
    match e {
        BillingError::NotFound(_) => RpcError::msg(Code::NotFound, "resource not found"),
        BillingError::ProviderError(_) => RpcError::msg(Code::Internal, "billing provider error"),
    }
}

/// How a token error reaches the caller: a token of another purpose is a
/// permission error, every other failure an authentication error.
pub open spec fn token_rpc(e: TokenErrorView) -> RpcErrorView {
    match e {
        TokenErrorView::InvalidSignature => rpc_err(Code::Unauthenticated, "invalid token signature"@),
        TokenErrorView::Malformed(s) => rpc_err(Code::Unauthenticated, "malformed token: "@ + s),
        TokenErrorView::Expired => rpc_err(Code::Unauthenticated, "token expired"@),
        TokenErrorView::WrongPurpose(_, _) => rpc_err(Code::PermissionDenied, token_error_message(e)),
        TokenErrorView::MissingCaveat(_) => rpc_err(Code::Unauthenticated, token_error_message(e)),
        TokenErrorView::InvalidCaveat(_) => rpc_err(Code::Unauthenticated, token_error_message(e)),
    }
}

pub fn map_token_error(e: TokenError) -> (r: RpcError)
    ensures
        r@ == token_rpc(e@),
{
    proof {
        reveal_strlit("malformed token: ");
    }
    match e {
        TokenError::InvalidSignature => RpcError::msg(Code::Unauthenticated, "invalid token signature"),
        TokenError::Malformed(s) => {
            let mut m = String::from_str("malformed token: ");
            m.append(s.as_str());
            RpcError::new(Code::Unauthenticated, m)
        },
        TokenError::Expired => RpcError::msg(Code::Unauthenticated, "token expired"),
        TokenError::WrongPurpose { .. } => RpcError::new(Code::PermissionDenied, e.to_string()),
        TokenError::MissingCaveat(_) => RpcError::new(Code::Unauthenticated, e.to_string()),
        TokenError::InvalidCaveat(_) => RpcError::new(Code::Unauthenticated, e.to_string()),
    }
}

/// How a password error reaches the caller: a refused new password is an
/// invalid argument, a wrong password an authentication error, a broken
/// stored hash an internal error.
pub open spec fn password_rpc(e: PasswordErrorView) -> RpcErrorView {
    match e {
        PasswordErrorView::TooShort(_) => rpc_err(Code::InvalidArgument, password_error_message(e)),
        PasswordErrorView::Pwned => rpc_err(
            Code::InvalidArgument,
            "password appears in known-breached corpus; pick another"@,
        ),
        PasswordErrorView::Mismatch => rpc_err(Code::Unauthenticated, "password mismatch"@),
        PasswordErrorView::HashFailed(_) => rpc_err(Code::Internal, password_error_message(e)),
        PasswordErrorView::InvalidHash(_) => rpc_err(Code::Internal, password_error_message(e)),
        PasswordErrorView::PolicyError(_) => rpc_err(Code::InvalidArgument, password_error_message(e)),
    }
}

pub fn map_password_error(e: PasswordError) -> (r: RpcError)
    ensures
        r@ == password_rpc(e@),
{
    match e {
        PasswordError::TooShort(_) => RpcError::new(Code::InvalidArgument, e.to_string()),
        PasswordError::Pwned => RpcError::msg(
            Code::InvalidArgument,
            "password appears in known-breached corpus; pick another",
        ),
        PasswordError::Mismatch => RpcError::msg(Code::Unauthenticated, "password mismatch"),
        PasswordError::HashFailed(_) => RpcError::new(Code::Internal, e.to_string()),
        PasswordError::InvalidHash(_) => RpcError::new(Code::Internal, e.to_string()),
        PasswordError::PolicyError(_) => RpcError::new(Code::InvalidArgument, e.to_string()),
    }
}

/// A duplicate reported as a failed precondition with `msg`; other store
/// errors as `store_rpc` says.
pub open spec fn exists_as_precondition(e: StoreErrorView, msg: Seq<char>) -> RpcErrorView {
    match e {
        StoreErrorView::AlreadyExists(_) => rpc_err(Code::FailedPrecondition, msg),
        _ => store_rpc(e),
    }
}

pub fn map_already_exists_as_precondition(e: StoreError, msg: &str) -> (r: RpcError)
    ensures
        r@ == exists_as_precondition(e@, msg@),
{
    match e {
        StoreError::AlreadyExists(_) => RpcError::msg(Code::FailedPrecondition, msg),
        other => from_store_error(other),
    }
}

} // verus!
