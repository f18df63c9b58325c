//! The domain behind the engine: binding an e-mail address to an account by a code
//! that is sent to the address.

pub mod code;
pub mod email;
pub mod error;
pub mod verify;

use crate::json::{member, Value, ValueView};
use crate::rpc::request::decode_method;
use crate::server::handler::{DecodeError, DecodeErrorView, DomainRequest};
use vstd::prelude::*;
use vstd::string::StringExecFns;

verus! {

/// A request of the domain. On the wire it is a method's name with an array of strings:
/// `send_code` takes an account and an e-mail address, `verify_code` takes an account,
/// an e-mail address and a code.
#[derive(Clone, Debug, PartialEq, Eq)]
pub enum ApiRequest {
    SendCode(String, String),
    VerifyCode(String, String, String),
}

/// The model of an [`ApiRequest`].
pub enum ApiRequestView {
    SendCode(Seq<char>, Seq<char>),
    VerifyCode(Seq<char>, Seq<char>, Seq<char>),
}

impl View for ApiRequest {
    type V = ApiRequestView;

    open spec fn view(&self) -> ApiRequestView {
        match self {
            ApiRequest::SendCode(account, email) => ApiRequestView::SendCode(account@, email@),
            ApiRequest::VerifyCode(account, email, code) => ApiRequestView::VerifyCode(
                account@,
                email@,
                code@,
            ),
        }
    }
}

/// The name of the method of a tagged call, where it holds one.
pub open spec fn tagged_method(tagged: ValueView) -> Option<Seq<char>> {
    match tagged {
        ValueView::Object(members) => decode_method(member(members, "method"@)),
        _ => None,
    }
}

/// The parameters of a tagged call; null where it holds none.
pub open spec fn tagged_params(tagged: ValueView) -> ValueView {
    match tagged {
        ValueView::Object(members) => match member(members, "params"@) {
            Some(params) => params,
            None => ValueView::Null,
        },
        _ => ValueView::Null,
    }
}

/// The number of parameters that a method takes, where the domain has the method.
pub open spec fn arity(method: Seq<char>) -> Option<nat> {
    if method == "send_code"@ {
        Some(2)
    } else if method == "verify_code"@ {
        Some(3)
    } else {
        None
    }
}

/// Whether every item is a string.
pub open spec fn all_strings(items: Seq<ValueView>) -> bool {
    forall|i: int| 0 <= i < items.len() ==> (#[trigger] items[i]) is String
}

/// What is wrong with the parameters of a method that takes `count` strings, if
/// anything is: they are no array, or not `count` items, or not all strings.
pub open spec fn params_failure(params: ValueView, count: nat) -> Option<Seq<char>> {
    match params {
        ValueView::Array(items) => if items.len() != count {
            if count == 2 {
                Some("invalid length: expected 2 parameters"@)
            } else {
                Some("invalid length: expected 3 parameters"@)
            }
        } else if !all_strings(items) {
            Some("invalid type: expected a string"@)
        } else {
            None
        },
        _ => Some("invalid type: expected an array of parameters"@),
    }
}

/// Why a tagged call is no request of the domain, if it is none.
pub open spec fn api_failure(tagged: ValueView) -> Option<DecodeErrorView> {
    match tagged_method(tagged) {
        None => Some(DecodeErrorView::UnknownMethod),
        Some(method) => match arity(method) {
            None => Some(DecodeErrorView::UnknownMethod),
            Some(count) => match params_failure(tagged_params(tagged), count) {
                Some(text) => Some(DecodeErrorView::InvalidParams(text)),
                None => None,
            },
        },
    }
}

/// The request that a tagged call stands for, where it is one.
pub open spec fn api_request(tagged: ValueView) -> ApiRequestView {
    let items = tagged_params(tagged)->Array_0;
    if tagged_method(tagged) == Some("send_code"@) {
        ApiRequestView::SendCode(items[0]->String_0, items[1]->String_0)
    } else {
        ApiRequestView::VerifyCode(items[0]->String_0, items[1]->String_0, items[2]->String_0)
    }
}

/// The two method names are two different strings.
pub proof fn lemma_method_names_differ()
    ensures
        "send_code"@ != "verify_code"@,
{
    reveal_strlit("send_code");
    reveal_strlit("verify_code");
    assert("send_code"@.len() == 9 && "verify_code"@.len() == 11);
}

/// Every text that says why parameters do not fit is non-empty.
pub proof fn lemma_params_failure_says_why(params: ValueView, count: nat)
    ensures
        params_failure(params, count) matches Some(text) ==> text.len() > 0,
{
    reveal_strlit("invalid length: expected 2 parameters");
    reveal_strlit("invalid length: expected 3 parameters");
    reveal_strlit("invalid type: expected a string");
    reveal_strlit("invalid type: expected an array of parameters");
}

/// The text of a parameter that has to be a string.
fn text_of(value: &Value) -> (r: Option<String>)
    ensures
        match r {
            Some(text) => value@ == ValueView::String(text@),
            None => !(value@ is String),
        },
{
    match value {
        Value::String(text) => Some(text.clone()),
        _ => None,
    }
}

impl DomainRequest for ApiRequest {
    open spec fn decode_failure(tagged: ValueView) -> Option<DecodeErrorView> {
        api_failure(tagged)
    }

    open spec fn decoded(tagged: ValueView, request: Self) -> bool {
        api_failure(tagged) is None && request@ == api_request(tagged)
    }

    /// Decodes a tagged call: `Ok` with the request where the method is one of the
    /// domain's and the parameters fit it, else the reason.
    fn decode(tagged: &Value) -> (r: Result<Self, DecodeError>) {
        proof {
            lemma_method_names_differ();
            lemma_params_failure_says_why(tagged_params(tagged@), 2);
            lemma_params_failure_says_why(tagged_params(tagged@), 3);
        }
        let method = match tagged.get("method") {
            Some(Value::String(name)) => name,
            _ => {
                return Err(DecodeError::UnknownMethod);
            },
        };
        let send = *method == String::from_str("send_code");
        let verify = *method == String::from_str("verify_code");
        if !send && !verify {
            return Err(DecodeError::UnknownMethod);
        }
        let items = match tagged.get("params") {
            Some(Value::Array(items)) => items,
            _ => {
                return Err(
                    DecodeError::InvalidParams(
                        String::from_str("invalid type: expected an array of parameters"),
                    ),
                );
            },
        };
        let ghost models = crate::json::values_view(items@);
        assert(tagged_params(tagged@) == ValueView::Array(models));
        if send {
            if items.len() != 2 {
                return Err(
                    DecodeError::InvalidParams(
                        String::from_str("invalid length: expected 2 parameters"),
                    ),
                );
            }
            match (text_of(&items[0]), text_of(&items[1])) {
                (Some(account), Some(email)) => {
                    assert(all_strings(models)) by {
                        assert(models[0] is String && models[1] is String);
                    }
                    Ok(ApiRequest::SendCode(account, email))
                },
                _ => {
                    assert(!all_strings(models)) by {
                        assert(!(models[0] is String) || !(models[1] is String));
                    }
                    Err(
                        DecodeError::InvalidParams(
                            String::from_str("invalid type: expected a string"),
                        ),
                    )
                },
            }
        } else {
            if items.len() != 3 {
                return Err(
                    DecodeError::InvalidParams(
                        String::from_str("invalid length: expected 3 parameters"),
                    ),
                );
            }
            match (text_of(&items[0]), text_of(&items[1]), text_of(&items[2])) {
                (Some(account), Some(email), Some(code)) => {
                    assert(all_strings(models)) by {
                        assert(models[0] is String && models[1] is String && models[2] is String);
                    }
                    Ok(ApiRequest::VerifyCode(account, email, code))
                },
                _ => {
                    assert(!all_strings(models)) by {
                        assert(!(models[0] is String) || !(models[1] is String) || !(
                        models[2] is String));
                    }
                    Err(
                        DecodeError::InvalidParams(
                            String::from_str("invalid type: expected a string"),
                        ),
                    )
                },
            }
        }
    }
}

} // verus!
