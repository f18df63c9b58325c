//! Error codes and error values of JSON-RPC 2.0.

use crate::json::{Value, ValueView};
use std::borrow::Cow;
use vstd::prelude::*;
use vstd::std_specs::convert::FromSpecImpl;
use vstd::string::StringExecFns;

verus! {

/// A JSON-RPC error code: one of the five reserved codes, or any other integer.
#[derive(Debug, Clone, Copy, PartialEq, Eq, Structural)]
pub enum ErrorCode {
    ParseError,
    InvalidRequest,
    MethodNotFound,
    InvalidParams,
    InternalError,
    ServerError(i64),
}

/// The code that an integer on the wire stands for: the reserved codes give their
/// variant, every other integer a `ServerError` that holds it.
pub open spec fn code_from_int(code: i64) -> ErrorCode {
    if code == -32700 {
        ErrorCode::ParseError
    } else if code == -32600 {
        ErrorCode::InvalidRequest
    } else if code == -32601 {
        ErrorCode::MethodNotFound
    } else if code == -32602 {
        ErrorCode::InvalidParams
    } else if code == -32603 {
        ErrorCode::InternalError
    } else {
        ErrorCode::ServerError(code)
    }
}

impl ErrorCode {
    /// The integer that stands for this code on the wire.
    pub open spec fn spec_code(self) -> i64 {
        match self {
            ErrorCode::ParseError => -32700i64,
            ErrorCode::InvalidRequest => -32600i64,
            ErrorCode::MethodNotFound => -32601i64,
            ErrorCode::InvalidParams => -32602i64,
            ErrorCode::InternalError => -32603i64,
            ErrorCode::ServerError(c) => c,
        }
    }

    /// The canonical text of this code.
    pub open spec fn spec_message(self) -> Seq<char> {
        match self {
            ErrorCode::ParseError => "Parse error"@,
            ErrorCode::InvalidRequest => "Invalid request"@,
            ErrorCode::MethodNotFound => "Method not found"@,
            ErrorCode::InvalidParams => "Invalid params"@,
            ErrorCode::InternalError => "Internal error"@,
            ErrorCode::ServerError(_) => "Server error"@,
        }
    }

    /// Whether this is the one spelling of its integer: a `ServerError` that holds a
    /// reserved code is a second spelling of that code.
    pub open spec fn is_canonical(self) -> bool {
        code_from_int(self.spec_code()) == self
    }

    /// The code that a value stands for: an integer that fits `i64` stands for a code,
    /// whichever integer it is, and nothing else does.
    pub open spec fn spec_decode(value: ValueView) -> Option<ErrorCode> {
        match value.as_i64() {
            Some(n) => Some(code_from_int(n)),
            None => None,
        }
    }

    pub fn code(&self) -> (r: i64)
        ensures
            r == self.spec_code(),
    {
        match *self {
            ErrorCode::ParseError => -32700,
            ErrorCode::InvalidRequest => -32600,
            ErrorCode::MethodNotFound => -32601,
            ErrorCode::InvalidParams => -32602,
            ErrorCode::InternalError => -32603,
            ErrorCode::ServerError(c) => c,
        }
    }

    pub fn message(&self) -> (r: &'static str)
        ensures
            r@ == self.spec_message(),
    {
        match *self {
            ErrorCode::ParseError => "Parse error",
            ErrorCode::InvalidRequest => "Invalid request",
            ErrorCode::MethodNotFound => "Method not found",
            ErrorCode::InvalidParams => "Invalid params",
            ErrorCode::InternalError => "Internal error",
            ErrorCode::ServerError(_) => "Server error",
        }
    }

    /// The code that a value stands for.
    pub fn decode(value: &Value) -> (r: Option<ErrorCode>)
        ensures
            r == ErrorCode::spec_decode(value@),
    {
        match value.as_i64() {
            Some(n) => Some(ErrorCode::from(n)),
            None => None,
        }
    }

    /// The value that stands for the code: its integer.
    pub fn to_json(&self) -> (r: Value)
        ensures
            r@ == ValueView::of_i64(self.spec_code()),
    {
        Value::from_i64(self.code())
    }
}

impl From<i64> for ErrorCode {
    fn from(code: i64) -> (r: Self) {
        match code {
            -32700 => ErrorCode::ParseError,
            -32600 => ErrorCode::InvalidRequest,
            -32601 => ErrorCode::MethodNotFound,
            -32602 => ErrorCode::InvalidParams,
            -32603 => ErrorCode::InternalError,
            _ => ErrorCode::ServerError(code),
        }
    }
}

impl FromSpecImpl<i64> for ErrorCode {
    open spec fn obeys_from_spec() -> bool {
        true
    }

    open spec fn from_spec(code: i64) -> Self {
        code_from_int(code)
    }
}

/// Every integer survives the way through an `ErrorCode` and back.
pub proof fn lemma_code_round_trip(code: i64)
    ensures
        code_from_int(code).spec_code() == code,
        code_from_int(code).is_canonical(),
        code_from_int(code) is ServerError <==> code != -32700 && code != -32600 && code != -32601
            && code != -32602 && code != -32603,
{
}

/// A code that is written and read back is the code of its integer: the same code
/// where that is the one spelling of its integer, else the reserved code.
pub proof fn lemma_code_value_round_trip(c: ErrorCode)
    ensures
        ErrorCode::spec_decode(ValueView::of_i64(c.spec_code())) == Some(
            code_from_int(c.spec_code()),
        ),
        c.is_canonical() ==> ErrorCode::spec_decode(ValueView::of_i64(c.spec_code())) == Some(c),
{
}

/// Two integers that give the same code are the same integer, and every code that is
/// the one spelling of its integer comes back from that integer.
pub proof fn lemma_code_bijection(a: i64, b: i64, c: ErrorCode)
    ensures
        code_from_int(a) == code_from_int(b) ==> a == b,
        c.is_canonical() ==> code_from_int(c.spec_code()) == c,
        !(c is ServerError) ==> c.is_canonical(),
{
}

/// A JSON-RPC error: its code, a message, and an optional payload.
#[derive(Debug, PartialEq, Eq)]
pub struct RpcError {
    pub code: ErrorCode,
    pub message: Cow<'static, str>,
    pub data: Option<Value>,
}

/// The model of an [`RpcError`].
pub struct RpcErrorView {
    pub code: ErrorCode,
    pub message: Seq<char>,
    pub data: Option<ValueView>,
}

impl RpcErrorView {
    /// The error that carries a code with its canonical text and no payload.
    pub open spec fn of_code(code: ErrorCode) -> RpcErrorView {
        RpcErrorView { code, message: code.spec_message(), data: None }
    }

    /// The error that carries a code with a text of the caller's and no payload.
    pub open spec fn with_message(code: ErrorCode, message: Seq<char>) -> RpcErrorView {
        RpcErrorView { code, message, data: None }
    }

    /// What the error reads as: the canonical text of the code, a colon, the message.
    pub open spec fn text(self) -> Seq<char> {
        self.code.spec_message() + ": "@ + self.message
    }
}

impl View for RpcError {
    type V = RpcErrorView;

    open spec fn view(&self) -> RpcErrorView {
        RpcErrorView {
            code: self.code,
            message: self.message@,
            data: match self.data {
                Some(v) => Some(v@),
                None => None,
            },
        }
    }
}

impl Clone for RpcError {
    fn clone(&self) -> (r: RpcError)
        ensures
            r@ == self@,
    {
        let message: Cow<'static, str> = match &self.message {
            Cow::Borrowed(b) => Cow::Borrowed(*b),
            Cow::Owned(o) => Cow::Owned(o.clone()),
        };
        let data = match &self.data {
            Some(v) => Some(v.clone()),
            None => None,
        };
        RpcError { code: self.code, message, data }
    }
}

impl RpcError {
    pub fn new(code: ErrorCode) -> (r: Self)
        ensures
            r@ == RpcErrorView::of_code(code),
    {
        RpcError { message: Cow::Borrowed(code.message()), code, data: None }
    }

    pub fn parse_error() -> (r: Self)
        ensures
            r@ == RpcErrorView::of_code(ErrorCode::ParseError),
    {
        Self::new(ErrorCode::ParseError)
    }

    pub fn method_not_found() -> (r: Self)
        ensures
            r@ == RpcErrorView::of_code(ErrorCode::MethodNotFound),
    {
        Self::new(ErrorCode::MethodNotFound)
    }

    pub fn invalid_request() -> (r: Self)
        ensures
            r@ == RpcErrorView::of_code(ErrorCode::InvalidRequest),
    {
        Self::new(ErrorCode::InvalidRequest)
    }

    pub fn internal_error() -> (r: Self)
        ensures
            r@ == RpcErrorView::of_code(ErrorCode::InternalError),
    {
        Self::new(ErrorCode::InternalError)
    }

    pub fn invalid_params(message: String) -> (r: Self)
        ensures
            r@ == RpcErrorView::with_message(ErrorCode::InvalidParams, message@),
    {
        RpcError { code: ErrorCode::InvalidParams, message: Cow::Owned(message), data: None }
    }

    pub fn internal_error_with(message: String) -> (r: Self)
        ensures
            r@ == RpcErrorView::with_message(ErrorCode::InternalError, message@),
    {
        RpcError { code: ErrorCode::InternalError, message: Cow::Owned(message), data: None }
    }

    /// The error as a line of text.
    pub fn to_string(&self) -> (r: String)
        ensures
            r@ == self@.text(),
    {
        let message: &str = match &self.message {
            Cow::Borrowed(b) => b,
            Cow::Owned(o) => o.as_str(),
        };
        let head = String::from_str(self.code.message());
        head.concat(": ").concat(message)
    }
}

} // verus!
