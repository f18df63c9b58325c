//! Responses: what a call is answered with, alone or in a batch.

use crate::json::{members_view, opt_view, values_view, Value, ValueView};
use crate::rpc::error::{ErrorCode, RpcError, RpcErrorView};
use crate::rpc::request::{Id, IdView, Version};
use vstd::prelude::*;
use vstd::std_specs::convert::FromSpecImpl;
use vstd::string::StringExecFns;

verus! {

/// What a call came to: a value, or an error.
#[derive(Debug, Clone, PartialEq, Eq)]
pub enum ResponseResult {
    Success(Value),
    Error(RpcError),
}

/// The model of a [`ResponseResult`].
pub enum ResponseResultView {
    Success(ValueView),
    Error(RpcErrorView),
}

/// The response to one call.
#[derive(Debug, Clone, PartialEq, Eq)]
pub struct RpcResponse {
    jsonrpc: Version,
    id: Option<Id>,
    result: ResponseResult,
}

/// The model of an [`RpcResponse`].
pub struct RpcResponseView {
    pub jsonrpc: Version,
    pub id: Option<IdView>,
    pub result: ResponseResultView,
}

/// The response to a request: one response, or a batch of them.
#[derive(Debug, Clone, PartialEq, Eq)]
pub enum Response {
    Single(RpcResponse),
    Batch(Vec<RpcResponse>),
}

/// The model of a [`Response`].
pub enum ResponseView {
    Single(RpcResponseView),
    Batch(Seq<RpcResponseView>),
}

impl RpcErrorView {
    /// The value that stands for the error: its code as an integer, its message, and its
    /// payload, which is null where there is none.
    pub open spec fn encode(self) -> ValueView {
        ValueView::Object(
            seq![
                ("code"@, ValueView::of_i64(self.code.spec_code())),
                ("message"@, ValueView::String(self.message)),
                (
                    "data"@,
                    match self.data {
                        Some(data) => data,
                        None => ValueView::Null,
                    },
                ),
            ],
        )
    }
}

impl ResponseResultView {
    /// The member that stands for the result: `result` with the value, or `error` with
    /// the error.
    pub open spec fn encode(self) -> (Seq<char>, ValueView) {
        match self {
            ResponseResultView::Success(value) => ("result"@, value),
            ResponseResultView::Error(error) => ("error"@, error.encode()),
        }
    }
}

impl RpcResponseView {
    /// The response that carries a result under an identifier.
    pub open spec fn new(id: IdView, result: ResponseResultView) -> RpcResponseView {
        RpcResponseView { jsonrpc: Version::V2, id: Some(id), result }
    }

    /// The response that carries an error under an identifier.
    pub open spec fn error(id: IdView, error: RpcErrorView) -> RpcResponseView {
        RpcResponseView::new(id, ResponseResultView::Error(error))
    }

    /// The response that says that a call was invalid.
    pub open spec fn invalid_request(id: IdView) -> RpcResponseView {
        RpcResponseView::error(id, RpcErrorView::of_code(ErrorCode::InvalidRequest))
    }

    /// The value that stands for the response: the version, the identifier where there
    /// is one, and the result or the error.
    pub open spec fn encode(self) -> ValueView {
        match self.id {
            Some(id) => ValueView::Object(
                seq![
                    ("jsonrpc"@, ValueView::String("2.0"@)),
                    ("id"@, id.encode()),
                    self.result.encode(),
                ],
            ),
            None => ValueView::Object(
                seq![("jsonrpc"@, ValueView::String("2.0"@)), self.result.encode()],
            ),
        }
    }
}

impl ResponseView {
    /// The response that stands for a failure of the request as a whole: one error
    /// under the null identifier.
    pub open spec fn error(error: RpcErrorView) -> ResponseView {
        ResponseView::Single(RpcResponseView::error(IdView::Null, error))
    }

    /// The response that says that the request was invalid.
    pub open spec fn invalid_request() -> ResponseView {
        ResponseView::error(RpcErrorView::of_code(ErrorCode::InvalidRequest))
    }

    /// The value that stands for the response.
    pub open spec fn encode(self) -> ValueView {
        match self {
            ResponseView::Single(response) => response.encode(),
            ResponseView::Batch(responses) => ValueView::Array(
                Seq::new(responses.len(), |i: int| responses[i].encode()),
            ),
        }
    }
}

impl View for ResponseResult {
    type V = ResponseResultView;

    open spec fn view(&self) -> ResponseResultView {
        match self {
            ResponseResult::Success(value) => ResponseResultView::Success(value@),
            ResponseResult::Error(error) => ResponseResultView::Error(error@),
        }
    }
}

impl View for RpcResponse {
    type V = RpcResponseView;

    closed spec fn view(&self) -> RpcResponseView {
        RpcResponseView { jsonrpc: self.jsonrpc, id: opt_view(self.id), result: self.result@ }
    }
}

/// The models of the responses of a batch, one for one.
pub open spec fn responses_view(responses: Seq<RpcResponse>) -> Seq<RpcResponseView> {
    Seq::new(responses.len(), |i: int| responses[i]@)
}

impl View for Response {
    type V = ResponseView;

    open spec fn view(&self) -> ResponseView {
        match self {
            Response::Single(response) => ResponseView::Single(response@),
            Response::Batch(responses) => ResponseView::Batch(responses_view(responses@)),
        }
    }
}

impl RpcError {
    /// The value that stands for the error.
    pub fn to_json(&self) -> (r: Value)
        ensures
            r@ == self@.encode(),
    {
        let message = match &self.message {
            std::borrow::Cow::Borrowed(text) => String::from_str(text),
            std::borrow::Cow::Owned(text) => text.clone(),
        };
        let data = match &self.data {
            Some(data) => data.clone(),
            None => Value::Null,
        };
        let mut members: Vec<(String, Value)> = Vec::new();
        members.push((String::from_str("code"), self.code.to_json()));
        members.push((String::from_str("message"), Value::String(message)));
        members.push((String::from_str("data"), data));
        assert(members_view(members@) =~= self@.encode()->Object_0);
        Value::Object(members)
    }
}

impl ResponseResult {
    pub fn success(content: Value) -> (r: Self)
        ensures
            r@ == ResponseResultView::Success(content@),
    {
        ResponseResult::Success(content)
    }

    pub fn error(err: RpcError) -> (r: Self)
        ensures
            r@ == ResponseResultView::Error(err@),
    {
        ResponseResult::Error(err)
    }
}

impl From<RpcError> for ResponseResult {
    fn from(err: RpcError) -> (r: Self)
        ensures
            r@ == ResponseResultView::Error(err@),
    {
        ResponseResult::Error(err)
    }
}

impl FromSpecImpl<RpcError> for ResponseResult {
    open spec fn obeys_from_spec() -> bool {
        true
    }

    open spec fn from_spec(err: RpcError) -> Self {
        ResponseResult::Error(err)
    }
}

impl RpcResponse {
    pub fn new(id: Id, content: ResponseResult) -> (r: Self)
        ensures
            r@ == RpcResponseView::new(id@, content@),
    {
        RpcResponse { jsonrpc: Version::V2, id: Some(id), result: content }
    }

    pub fn invalid_request(id: Id) -> (r: Self)
        ensures
            r@ == RpcResponseView::invalid_request(id@),
    {
        Self::new(id, ResponseResult::Error(RpcError::invalid_request()))
    }

    /// The identifier of the call that this answers, if one is held.
    pub fn id(&self) -> (r: &Option<Id>)
        ensures
            opt_view(*r) == self@.id,
    {
        &self.id
    }

    /// What the call came to.
    pub fn result(&self) -> (r: &ResponseResult)
        ensures
            r@ == self@.result,
    {
        &self.result
    }

    /// The protocol version of the response.
    pub fn version(&self) -> (r: Version)
        ensures
            r == self@.jsonrpc,
    {
        self.jsonrpc
    }

    /// The value that stands for the response.
    pub fn to_json(&self) -> (r: Value)
        ensures
            r@ == self@.encode(),
    {
        let mut members: Vec<(String, Value)> = Vec::new();
        members.push((String::from_str("jsonrpc"), self.jsonrpc.to_json()));
        match &self.id {
            Some(id) => {
                members.push((String::from_str("id"), id.to_json()));
            },
            None => {},
        }
        match &self.result {
            ResponseResult::Success(value) => {
                members.push((String::from_str("result"), value.clone()));
            },
            ResponseResult::Error(error) => {
                members.push((String::from_str("error"), error.to_json()));
            },
        }
        assert(members_view(members@) =~= self@.encode()->Object_0);
        Value::Object(members)
    }
}

impl Response {
    pub fn error(err: RpcError) -> (r: Self)
        ensures
            r@ == ResponseView::error(err@),
    {
        Response::Single(RpcResponse::new(Id::Null, ResponseResult::Error(err)))
    }

    /// The value that stands for the response.
    pub fn to_json(&self) -> (r: Value)
        ensures
            r@ == self@.encode(),
    {
        match self {
            Response::Single(response) => response.to_json(),
            Response::Batch(responses) => {
                let mut items: Vec<Value> = Vec::new();
                let mut i: usize = 0;
                while i < responses.len()
                    invariant
                        i <= responses.len(),
                        items@.len() == i,
                        forall|j: int| 0 <= j < i ==> items@[j]@ == responses@[j]@.encode(),
                    decreases responses.len() - i,
                {
                    items.push(responses[i].to_json());
                    i += 1;
                }
                assert(values_view(items@) =~= self@.encode()->Array_0);
                Value::Array(items)
            },
        }
    }
}

impl From<RpcError> for Response {
    fn from(value: RpcError) -> (r: Self)
        ensures
            r@ == ResponseView::error(value@),
    {
        Response::Single(
            RpcResponse {
                jsonrpc: Version::V2,
                id: Some(Id::Null),
                result: ResponseResult::Error(value),
            },
        )
    }
}

impl FromSpecImpl<RpcError> for Response {
    open spec fn obeys_from_spec() -> bool {
        true
    }

    closed spec fn from_spec(value: RpcError) -> Self {
        Response::Single(
            RpcResponse {
                jsonrpc: Version::V2,
                id: Some(Id::Null),
                result: ResponseResult::Error(value),
            },
        )
    }
}

impl From<RpcResponse> for Response {
    fn from(value: RpcResponse) -> (r: Self)
        ensures
            r@ == ResponseView::Single(value@),
    {
        Response::Single(value)
    }
}

impl FromSpecImpl<RpcResponse> for Response {
    open spec fn obeys_from_spec() -> bool {
        true
    }

    open spec fn from_spec(value: RpcResponse) -> Self {
        Response::Single(value)
    }
}

} // verus!
