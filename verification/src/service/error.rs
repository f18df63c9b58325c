//! The errors of the domain, and how its results are told to a caller.

use crate::json::{Value, ValueView};
use crate::rpc::error::{ErrorCode, RpcError, RpcErrorView};
use crate::rpc::response::{ResponseResult, ResponseResultView};
use vstd::prelude::*;

verus! {

/// An error of the domain.
#[derive(Debug, Clone, PartialEq, Eq)]
pub enum ServiceError {
    DatabaseError(String),
    InvalidRequest(String),
}

/// The model of a [`ServiceError`].
pub enum ServiceErrorView {
    DatabaseError(Seq<char>),
    InvalidRequest(Seq<char>),
}

impl ServiceErrorView {
    /// The text that the error carries.
    pub open spec fn text(self) -> Seq<char> {
        match self {
            ServiceErrorView::DatabaseError(text) => text,
            ServiceErrorView::InvalidRequest(text) => text,
        }
    }
}

impl View for ServiceError {
    type V = ServiceErrorView;

    open spec fn view(&self) -> ServiceErrorView {
        match self {
            ServiceError::DatabaseError(text) => ServiceErrorView::DatabaseError(text@),
            ServiceError::InvalidRequest(text) => ServiceErrorView::InvalidRequest(text@),
        }
    }
}

/// The result that stands for an outcome of the domain: the text as a string value on
/// success; on failure an internal error whose message is the text of the failure.
pub open spec fn rpc_result(outcome: Result<Seq<char>, ServiceErrorView>) -> ResponseResultView {
    match outcome {
        Ok(text) => ResponseResultView::Success(ValueView::String(text)),
        Err(e) => ResponseResultView::Error(
            RpcErrorView::with_message(ErrorCode::InternalError, e.text()),
        ),
    }
}

/// The result that stands for a value that was to be serialised: the value where that
/// went well, else an internal error.
pub fn to_rpc_result<E>(val: Result<Value, E>) -> (r: ResponseResult)
    ensures
        r@ == match val {
            Ok(success) => ResponseResultView::Success(success@),
            Err(_) => ResponseResultView::Error(RpcErrorView::of_code(ErrorCode::InternalError)),
        },
{
    match val {
        Ok(success) => ResponseResult::Success(success),
        Err(_) => ResponseResult::error(RpcError::internal_error()),
    }
}

/// What can be told to a caller as the result of a call.
pub trait ToRpcResponseResult {
    fn to_rpc_result(self) -> ResponseResult;
}

impl ToRpcResponseResult for Result<String, ServiceError> {
    fn to_rpc_result(self) -> (r: ResponseResult)
        ensures
            r@ == rpc_result(
                match self {
                    Ok(text) => Ok(text@),
                    Err(e) => Err(e@),
                },
            ),
    {
        match self {
            Ok(val) => ResponseResult::Success(Value::String(val)),
            Err(err) => match err {
                ServiceError::DatabaseError(err) => ResponseResult::Error(
                    RpcError::internal_error_with(err),
                ),
                ServiceError::InvalidRequest(text) => ResponseResult::Error(
                    RpcError::internal_error_with(text),
                ),
            },
        }
    }
}

} // verus!
