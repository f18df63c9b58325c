use std::cell::Cell;
use verifying_email_binder::json::{Number, Value, ValueView};
use verifying_email_binder::rpc::error::{ErrorCode, RpcError};
use verifying_email_binder::rpc::request::{
    Id, Request, RequestParams, RpcCall, RpcMethodCall, RpcNotification, Version,
};
use verifying_email_binder::rpc::response::{
    Response, ResponseResult, ResponseResultView, RpcResponse,
};
use verifying_email_binder::server::handler::{
    handle, handle_call, handle_request, handle_value, or_invalid_request, plan_call, respond,
    response_as_single, responses_as_batch, tag_call, CallPlan, DecodeError, DecodeErrorView,
    DomainRequest, RpcHandler,
};

/// A domain with one method, `known`, which takes an array of any length.
struct Known(usize);

impl DomainRequest for Known {
    fn decode_failure(_tagged: ValueView) -> Option<DecodeErrorView> {
        unreachable!()
    }

    fn decoded(_tagged: ValueView, _request: Self) -> bool {
        unreachable!()
    }

    fn decode(tagged: &Value) -> Result<Self, DecodeError> {
        match tagged.get("method") {
            Some(Value::String(name)) if name == "known" => match tagged.get("params") {
                Some(Value::Array(items)) => Ok(Known(items.len())),
                _ => Err(DecodeError::InvalidParams("expected an array".to_owned())),
            },
            _ => Err(DecodeError::UnknownMethod),
        }
    }
}

/// A handler that always succeeds, and counts how often it was asked.
struct Counting {
    asked: Cell<usize>,
}

impl Counting {
    fn new() -> Self {
        Counting { asked: Cell::new(0) }
    }
}

impl RpcHandler for Counting {
    type Request = Known;

    fn answers(&self, _request: Known, _result: ResponseResultView) -> bool {
        unreachable!()
    }

    fn on_request(&self, request: Known) -> ResponseResult {
        self.asked.set(self.asked.get() + 1);
        ResponseResult::success(Value::Number(Number::PosInt(request.0 as u64)))
    }
}

/// A handler that always fails with an error of the domain.
struct Failing;

impl RpcHandler for Failing {
    type Request = Known;

    fn answers(&self, _request: Known, _result: ResponseResultView) -> bool {
        unreachable!()
    }

    fn on_request(&self, _request: Known) -> ResponseResult {
        ResponseResult::error(RpcError::new(ErrorCode::ServerError(7)))
    }
}

fn known_call(id: i64) -> RpcCall {
    RpcCall::MethodCall(RpcMethodCall {
        jsonrpc: Version::V2,
        method: "known".to_owned(),
        params: RequestParams::Array(vec![]),
        id: Id::Number(id),
    })
}

fn call_of(method: &str, params: RequestParams, id: Id) -> RpcMethodCall {
    RpcMethodCall { jsonrpc: Version::V2, method: method.to_owned(), params, id }
}

fn notification(method: &str) -> RpcCall {
    RpcCall::Notification(RpcNotification {
        jsonrpc: Some(Version::V2),
        method: method.to_owned(),
        params: RequestParams::Absent,
    })
}

fn ok(id: Id, count: u64) -> RpcResponse {
    RpcResponse::new(id, ResponseResult::success(Value::Number(Number::PosInt(count))))
}

#[test]
fn method_call_is_answered_under_its_id() {
    let handler = Counting::new();
    let call = call_of("known", RequestParams::Array(vec![Value::Null, Value::Null]), Id::Number(7));
    assert_eq!(handler.on_call(call), ok(Id::Number(7), 2));
    assert_eq!(handler.asked.get(), 1);
}

#[test]
fn batch_is_answered_in_the_order_of_its_calls() {
    let handler = Counting::new();
    let batch = Request::Batch(vec![known_call(1), notification("anything"), known_call(2)]);
    let response = handle_request(batch, &handler);
    assert_eq!(
        response,
        Some(Response::Batch(vec![ok(Id::Number(1), 0), ok(Id::Number(2), 0)]))
    );
    match response {
        Some(Response::Batch(responses)) => {
            assert_eq!(responses.len(), 2);
            assert_eq!(responses[0].id(), &Some(Id::Number(1)));
            assert_eq!(responses[1].id(), &Some(Id::Number(2)));
        }
        _ => panic!("a batch was owed"),
    }
    assert_eq!(handler.asked.get(), 2);
}

#[test]
fn batch_of_notifications_yields_no_response() {
    let handler = Counting::new();
    let batch = Request::Batch(vec![notification("a"), notification("known"), notification("c")]);
    assert_eq!(handle_request(batch, &handler), None);
    assert_eq!(handler.asked.get(), 0);
}

#[test]
fn empty_batch_yields_no_response() {
    let handler = Counting::new();
    assert_eq!(handle_request(Request::Batch(vec![]), &handler), None);
    assert_eq!(responses_as_batch(vec![]), None);
}

#[test]
fn lone_notification_yields_no_response_and_no_call() {
    let handler = Counting::new();
    assert_eq!(handle_request(Request::Single(notification("known")), &handler), None);
    assert_eq!(handle_call(notification("known"), &handler), None);
    assert_eq!(handler.asked.get(), 0);
}

#[test]
fn single_call_yields_a_single_response() {
    let handler = Counting::new();
    assert_eq!(
        handle_request(Request::Single(known_call(5)), &handler),
        Some(Response::Single(ok(Id::Number(5), 0)))
    );
}

#[test]
fn batch_of_one_call_yields_a_batch_of_one() {
    let handler = Counting::new();
    assert_eq!(
        handle_request(Request::Batch(vec![known_call(5)]), &handler),
        Some(Response::Batch(vec![ok(Id::Number(5), 0)]))
    );
}

#[test]
fn unknown_method_yields_method_not_found() {
    let handler = Counting::new();
    let call = call_of("nope", RequestParams::Absent, Id::String("q".to_owned()));
    let response = handler.on_call(call);
    assert_eq!(
        response,
        RpcResponse::new(
            Id::String("q".to_owned()),
            ResponseResult::error(RpcError::method_not_found())
        )
    );
    match response.result() {
        ResponseResult::Error(error) => {
            assert_eq!(error.code, ErrorCode::MethodNotFound);
            assert_eq!(error.code.code(), -32601);
            assert_eq!(error.message, "Method not found");
        }
        _ => panic!("an error was owed"),
    }
    assert_eq!(handler.asked.get(), 0);
}

#[test]
fn parameters_that_do_not_fit_yield_invalid_params_with_the_reason() {
    let handler = Counting::new();
    let call = call_of("known", RequestParams::Absent, Id::Number(3));
    let response = handler.on_call(call);
    assert_eq!(
        response,
        RpcResponse::new(
            Id::Number(3),
            ResponseResult::error(RpcError::invalid_params("expected an array".to_owned()))
        )
    );
    match response.result() {
        ResponseResult::Error(error) => {
            assert_eq!(error.code, ErrorCode::InvalidParams);
            assert!(!error.message.is_empty());
        }
        _ => panic!("an error was owed"),
    }
    assert_eq!(handler.asked.get(), 0);
}

#[test]
fn failure_of_the_domain_comes_back_under_the_id() {
    let response = Failing.on_call(call_of("known", RequestParams::Array(vec![]), Id::Number(1)));
    assert_eq!(
        response,
        RpcResponse::new(
            Id::Number(1),
            ResponseResult::error(RpcError::new(ErrorCode::ServerError(7)))
        )
    );
}

#[test]
fn invalid_call_yields_invalid_request_under_the_recovered_id() {
    let handler = Counting::new();
    assert_eq!(
        handle_call(RpcCall::Invalid { id: Id::Number(9) }, &handler),
        Some(RpcResponse::invalid_request(Id::Number(9)))
    );
    assert_eq!(
        handle_call(RpcCall::Invalid { id: Id::Null }, &handler),
        Some(RpcResponse::invalid_request(Id::Null))
    );
    let decoded = RpcCall::decode(&Value::Object(vec![("id".to_owned(), Value::from_str("r"))]));
    let response = handle_call(decoded, &handler).unwrap();
    assert_eq!(response.id(), &Some(Id::String("r".to_owned())));
    assert_eq!(response.result(), &ResponseResult::error(RpcError::invalid_request()));
    assert_eq!(response.version(), Version::V2);
    assert_eq!(handler.asked.get(), 0);
}

#[test]
fn mixed_batch_keeps_every_owed_response_in_place() {
    let handler = Counting::new();
    let batch = Request::Batch(vec![
        RpcCall::Invalid { id: Id::Null },
        notification("x"),
        RpcCall::MethodCall(call_of("nope", RequestParams::Absent, Id::Number(2))),
        known_call(3),
        RpcCall::Invalid { id: Id::Number(4) },
    ]);
    assert_eq!(
        handle_request(batch, &handler),
        Some(Response::Batch(vec![
            RpcResponse::invalid_request(Id::Null),
            RpcResponse::new(Id::Number(2), ResponseResult::error(RpcError::method_not_found())),
            ok(Id::Number(3), 0),
            RpcResponse::invalid_request(Id::Number(4)),
        ]))
    );
    assert_eq!(handler.asked.get(), 1);
}

#[test]
fn body_that_was_no_request_is_answered_with_invalid_request() {
    let handler = Counting::new();
    let response = handle(None, &handler);
    assert_eq!(response, Response::error(RpcError::invalid_request()));
    assert_eq!(response, Response::Single(RpcResponse::invalid_request(Id::Null)));
    assert_eq!(
        response.to_json(),
        Value::Object(vec![
            ("jsonrpc".to_owned(), Value::String("2.0".to_owned())),
            ("id".to_owned(), Value::Null),
            (
                "error".to_owned(),
                Value::Object(vec![
                    ("code".to_owned(), Value::Number(Number::NegInt(-32600))),
                    ("message".to_owned(), Value::String("Invalid request".to_owned())),
                    ("data".to_owned(), Value::Null),
                ])
            ),
        ])
    );
}

#[test]
fn object_without_required_fields_is_answered_with_invalid_request() {
    let handler = Counting::new();
    let body = Value::Object(vec![("foo".to_owned(), Value::Bool(true))]);
    let response = handle(Request::decode(&body), &handler);
    assert_eq!(response, Response::Single(RpcResponse::invalid_request(Id::Null)));
    assert_eq!(handle_value(Some(&body), &handler), response);
    let bare = Value::String("not json".to_owned());
    assert_eq!(
        handle(Request::decode(&bare), &handler),
        Response::Single(RpcResponse::invalid_request(Id::Null))
    );
    assert_eq!(handle_value(Some(&bare), &handler), response);
    assert_eq!(handle_value(None, &handler), response);
    let call = known_call(8).to_json();
    assert_eq!(
        handle_value(Some(&call), &handler),
        Response::Single(ok(Id::Number(8), 0))
    );
}

#[test]
fn request_that_is_owed_nothing_is_answered_with_invalid_request_by_the_transport() {
    let handler = Counting::new();
    let invalid = Response::Single(RpcResponse::invalid_request(Id::Null));
    assert_eq!(handle(Some(Request::Single(notification("n"))), &handler), invalid);
    assert_eq!(handle(Some(Request::Batch(vec![])), &handler), invalid);
    assert_eq!(handle(Some(Request::Batch(vec![notification("n")])), &handler), invalid);
    assert_eq!(or_invalid_request(None), invalid);
    assert_eq!(handler.asked.get(), 0);
}

#[test]
fn owed_response_is_sent_as_it_is() {
    let handler = Counting::new();
    assert_eq!(
        handle(Some(Request::Single(known_call(1))), &handler),
        Response::Single(ok(Id::Number(1), 0))
    );
    let batch = Response::Batch(vec![ok(Id::Number(1), 0)]);
    assert_eq!(or_invalid_request(Some(batch.clone())), batch);
}

#[test]
fn plan_tells_the_three_kinds_of_call_apart() {
    let call = call_of("known", RequestParams::Absent, Id::Number(1));
    assert_eq!(plan_call(RpcCall::MethodCall(call.clone())), CallPlan::Invoke(call));
    assert_eq!(plan_call(notification("n")), CallPlan::Silent);
    assert_eq!(
        plan_call(RpcCall::Invalid { id: Id::Number(2) }),
        CallPlan::Reply(RpcResponse::invalid_request(Id::Number(2)))
    );
}

#[test]
fn respond_wraps_result_or_reason() {
    assert_eq!(
        respond(Id::Number(1), Ok(ResponseResult::success(Value::Null))),
        RpcResponse::new(Id::Number(1), ResponseResult::success(Value::Null))
    );
    assert_eq!(
        respond(Id::Number(1), Err(DecodeError::UnknownMethod)),
        RpcResponse::new(Id::Number(1), ResponseResult::error(RpcError::method_not_found()))
    );
    assert_eq!(
        respond(Id::Null, Err(DecodeError::InvalidParams("why".to_owned()))),
        RpcResponse::new(Id::Null, ResponseResult::error(RpcError::invalid_params("why".to_owned())))
    );
    assert_eq!(DecodeError::UnknownMethod.into_rpc_error(), RpcError::method_not_found());
}

#[test]
fn tagged_call_holds_method_and_params() {
    assert_eq!(
        tag_call("m".to_owned(), RequestParams::Array(vec![Value::Bool(true)])),
        Value::Object(vec![
            ("method".to_owned(), Value::String("m".to_owned())),
            ("params".to_owned(), Value::Array(vec![Value::Bool(true)])),
        ])
    );
    assert_eq!(
        tag_call("m".to_owned(), RequestParams::Absent),
        Value::Object(vec![
            ("method".to_owned(), Value::String("m".to_owned())),
            ("params".to_owned(), Value::Null),
        ])
    );
}

#[test]
fn slots_are_collected_in_their_order() {
    let a = ok(Id::Number(1), 0);
    let b = ok(Id::Number(2), 0);
    assert_eq!(
        responses_as_batch(vec![None, Some(a.clone()), None, Some(b.clone()), None]),
        Some(Response::Batch(vec![a.clone(), b]))
    );
    assert_eq!(responses_as_batch(vec![None, None]), None);
    assert_eq!(response_as_single(Some(a.clone())), Some(Response::Single(a)));
    assert_eq!(response_as_single(None), None);
}
