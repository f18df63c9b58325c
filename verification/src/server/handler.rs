//! Dispatch of calls to a handler, and the assembly of what comes back.
//!
//! A method call is answered once, under its identifier. A notification is never
//! answered, and the handler never sees it. An invalid call is answered with an
//! invalid-request error under the identifier that could be read from it. The responses
//! to a batch stand in the order of their calls.

use crate::json::{members_view, opt_view, Value, ValueView};
use crate::rpc::error::{ErrorCode, RpcError, RpcErrorView};
use crate::rpc::request::{
    calls_view, CallView, Id, IdView, MethodCallView, NotificationView, Request, RequestParams,
    RequestView, RpcCall, RpcMethodCall, Version,
};
use crate::rpc::response::{
    responses_view, Response, ResponseResult, ResponseResultView, ResponseView, RpcResponse,
    RpcResponseView,
};
use vstd::prelude::*;
use vstd::string::StringExecFns;

verus! {

/// Why a call does not decode into a request of the domain.
#[derive(Debug, Clone, PartialEq, Eq)]
pub enum DecodeError {
    /// The domain has no method of that name.
    UnknownMethod,
    /// The domain has the method, and the parameters do not fit it. The text says why.
    InvalidParams(String),
}

/// The model of a [`DecodeError`].
pub enum DecodeErrorView {
    UnknownMethod,
    InvalidParams(Seq<char>),
}

impl DecodeErrorView {
    /// The error that a caller is told: an unknown method is `MethodNotFound`; parameters
    /// that do not fit are `InvalidParams`, with the decoder's text as the message.
    pub open spec fn rpc_error(self) -> RpcErrorView {
        match self {
            DecodeErrorView::UnknownMethod => RpcErrorView::of_code(ErrorCode::MethodNotFound),
            DecodeErrorView::InvalidParams(text) => RpcErrorView::with_message(
                ErrorCode::InvalidParams,
                text,
            ),
        }
    }
}

impl View for DecodeError {
    type V = DecodeErrorView;

    open spec fn view(&self) -> DecodeErrorView {
        match self {
            DecodeError::UnknownMethod => DecodeErrorView::UnknownMethod,
            DecodeError::InvalidParams(text) => DecodeErrorView::InvalidParams(text@),
        }
    }
}

impl DecodeError {
    /// The error that a caller is told.
    pub fn into_rpc_error(self) -> (r: RpcError)
        ensures
            r@ == self@.rpc_error(),
    {
        match self {
            DecodeError::UnknownMethod => RpcError::method_not_found(),
            DecodeError::InvalidParams(text) => RpcError::invalid_params(text),
        }
    }
}

/// The value that is handed to the decoder of the domain for a method call: an object
/// that holds the method's name under `method` and the parameters under `params`.
pub open spec fn tagged_call(method: Seq<char>, params: ValueView) -> ValueView {
    ValueView::Object(seq![("method"@, ValueView::String(method)), ("params"@, params)])
}

/// The requests of a domain. A call is decoded by the name of its method; a name that
/// the domain does not have is told apart from parameters that do not fit the method.
///
/// `decode_failure` and `decoded` are the model of `decode`, and contracts speak of them
/// alone. An implementation that is compiled without the verifier gives them bodies
/// that are never run.
pub trait DomainRequest: Sized {
    /// Why a tagged call does not decode, if it does not.
    spec fn decode_failure(tagged: ValueView) -> Option<DecodeErrorView>;

    /// Whether a request is what a tagged call decodes into.
    spec fn decoded(tagged: ValueView, request: Self) -> bool;

    /// Decodes a tagged call. Where the parameters do not fit, the text that says why
    /// is not empty.
    fn decode(tagged: &Value) -> (r: Result<Self, DecodeError>)
        ensures
            match r {
                Ok(request) => Self::decode_failure(tagged@) is None && Self::decoded(
                    tagged@,
                    request,
                ),
                Err(e) => Self::decode_failure(tagged@) == Some(e@),
            },
            r matches Err(DecodeError::InvalidParams(text)) ==> text@.len() > 0,
    ;
}

/// Why a method call does not decode into a request of the domain, if it does not.
pub open spec fn call_failure<R: DomainRequest>(call: MethodCallView) -> Option<DecodeErrorView> {
    R::decode_failure(tagged_call(call.method, call.params.encode()))
}

/// Whether a result is one that the handler may give for a method call that decodes:
/// it is a result that the handler may give for a request that the call decodes into.
pub open spec fn handler_answers<H: RpcHandler>(
    handler: &H,
    call: MethodCallView,
    result: ResponseResultView,
) -> bool {
    exists|request: H::Request|
        #![trigger handler.answers(request, result)]
        H::Request::decoded(tagged_call(call.method, call.params.encode()), request)
            && handler.answers(request, result)
}

/// Whether a response answers a method call: it stands under the call's identifier.
/// Where the call does not decode, it is the error that says why, with a message that
/// is not empty; where it decodes, it holds a result that the handler may give for
/// what it decodes into.
pub open spec fn answers_method_call<H: RpcHandler>(
    handler: &H,
    call: MethodCallView,
    response: RpcResponseView,
) -> bool {
    &&& response.jsonrpc == Version::V2
    &&& response.id == Some(call.id)
    &&& match call_failure::<H::Request>(call) {
        Some(e) => response.result == ResponseResultView::Error(e.rpc_error())
            && e.rpc_error().message.len() > 0,
        None => handler_answers(handler, call, response.result),
    }
}

/// The response to a method call, from what became of it: the handler's result where
/// the call decoded, else the error that says why it did not.
pub fn respond(id: Id, outcome: Result<ResponseResult, DecodeError>) -> (r: RpcResponse)
    ensures
        r@ == RpcResponseView::new(
            id@,
            match outcome {
                Ok(result) => result@,
                Err(e) => ResponseResultView::Error(e@.rpc_error()),
            },
        ),
{
    match outcome {
        Ok(result) => RpcResponse::new(id, result),
        Err(e) => RpcResponse::new(id, ResponseResult::Error(e.into_rpc_error())),
    }
}

/// Builds the value that is handed to the decoder of the domain.
pub fn tag_call(method: String, params: RequestParams) -> (r: Value)
    ensures
        r@ == tagged_call(method@, params@.encode()),
{
    let mut members: Vec<(String, Value)> = Vec::new();
    members.push((String::from_str("method"), Value::String(method)));
    let ghost encoded = params@.encode();
    members.push((String::from_str("params"), params.into_json()));
    assert(members_view(members@) =~= tagged_call(method@, encoded)->Object_0);
    Value::Object(members)
}

/// The business logic that the engine calls into.
///
/// `answers` is the model of `on_request`: it says which results the handler may give
/// for a request, and may admit every result. An implementation that is compiled
/// without the verifier gives it a body that is never run.
pub trait RpcHandler: Sized {
    /// The requests of the domain.
    type Request: DomainRequest;

    /// Whether a result is one that the handler may give for a request.
    spec fn answers(&self, request: Self::Request, result: ResponseResultView) -> bool;

    /// Carries out a request. Failures of the domain come back as an error result.
    fn on_request(&self, request: Self::Request) -> (r: ResponseResult)
        ensures
            self.answers(request, r@),
    ;

    /// Answers a method call: decodes it, and hands it to `on_request` where it decodes.
    /// The response stands under the identifier of the call. It holds the error that
    /// says why the call does not decode, or else a result that the handler may give for
    /// what the call decodes into.
    fn on_call(&self, call: RpcMethodCall) -> (r: RpcResponse)
        ensures
            r@.jsonrpc == Version::V2,
            r@.id == Some(call@.id),
            match call_failure::<Self::Request>(call@) {
                Some(e) => r@.result == ResponseResultView::Error(e.rpc_error())
                    && e.rpc_error().message.len() > 0,
                None => exists|request: Self::Request|
                    #![trigger self.answers(request, r@.result)]
                    Self::Request::decoded(
                        tagged_call(call@.method, call@.params.encode()),
                        request,
                    ) && self.answers(request, r@.result),
            },
    {
        let RpcMethodCall { method, params, id, .. } = call;
        let tagged = tag_call(method, params);
        match Self::Request::decode(&tagged) {
            Ok(request) => {
                let result = self.on_request(request);
                respond(id, Ok(result))
            },
            Err(e) => {
                proof {
                    reveal_strlit("Method not found");
                }
                respond(id, Err(e))
            },
        }
    }
}

/// Whether a slot answers a call: a method call has its response, a notification has
/// none, and an invalid call has the invalid-request error under the identifier that
/// was read from it.
pub open spec fn answers_call<H: RpcHandler>(
    handler: &H,
    call: CallView,
    slot: Option<RpcResponseView>,
) -> bool {
    match call {
        CallView::MethodCall(c) => slot is Some && answers_method_call(handler, c, slot->Some_0),
        CallView::Notification(_) => slot is None,
        CallView::Invalid { id } => slot == Some(RpcResponseView::invalid_request(id)),
    }
}

/// Whether the slots answer the calls of a batch, position by position.
pub open spec fn answers_batch<H: RpcHandler>(
    handler: &H,
    calls: Seq<CallView>,
    slots: Seq<Option<RpcResponseView>>,
) -> bool {
    &&& slots.len() == calls.len()
    &&& forall|i: int| 0 <= i < calls.len() ==> answers_call(handler, calls[i], #[trigger] slots[i])
}

/// The responses that the slots hold, in the order of the slots.
pub open spec fn present(slots: Seq<Option<RpcResponseView>>) -> Seq<RpcResponseView>
    decreases slots.len(),
{
    if slots.len() == 0 {
        Seq::empty()
    } else {
        match slots.last() {
            Some(response) => present(slots.drop_last()).push(response),
            None => present(slots.drop_last()),
        }
    }
}

/// The response to a batch: the responses that the slots hold, as a batch; and no
/// response at all, rather than an empty batch, where they hold none.
pub open spec fn batch_response(slots: Seq<Option<RpcResponseView>>) -> Option<ResponseView> {
    if present(slots).len() == 0 {
        None
    } else {
        Some(ResponseView::Batch(present(slots)))
    }
}

/// The response to a request of one call: the response in the slot, if it holds one.
pub open spec fn single_response(slot: Option<RpcResponseView>) -> Option<ResponseView> {
    match slot {
        Some(response) => Some(ResponseView::Single(response)),
        None => None,
    }
}

/// Whether a response answers a request of one call: it is the response in a slot
/// that answers the call.
pub open spec fn answers_single<H: RpcHandler>(
    handler: &H,
    call: CallView,
    response: Option<ResponseView>,
) -> bool {
    match response {
        None => answers_call(handler, call, None),
        Some(ResponseView::Single(r)) => answers_call(handler, call, Some(r)),
        Some(ResponseView::Batch(_)) => false,
    }
}

/// Whether a response answers a batch: the calls are answered, each by itself, into
/// one slot each, and the response is made of the slots, so it follows the order of
/// the calls.
pub open spec fn answers_all<H: RpcHandler>(
    handler: &H,
    calls: Seq<CallView>,
    response: Option<ResponseView>,
) -> bool {
    exists|slots: Seq<Option<RpcResponseView>>|
        #![trigger answers_batch(handler, calls, slots)]
        answers_batch(handler, calls, slots) && response == batch_response(slots)
}

/// Whether a response answers a request.
pub open spec fn answers_request<H: RpcHandler>(
    handler: &H,
    request: RequestView,
    response: Option<ResponseView>,
) -> bool {
    match request {
        RequestView::Single(call) => answers_single(handler, call, response),
        RequestView::Batch(calls) => answers_all(handler, calls, response),
    }
}

/// Slots that answer the calls of a batch make a response that answers the batch.
pub proof fn lemma_batch_answered<H: RpcHandler>(
    handler: &H,
    calls: Seq<CallView>,
    slots: Seq<Option<RpcResponseView>>,
)
    requires
        answers_batch(handler, calls, slots),
    ensures
        answers_request(handler, RequestView::Batch(calls), batch_response(slots)),
{
}

/// The models of the slots of a batch, one for one.
pub open spec fn slots_view(slots: Seq<Option<RpcResponse>>) -> Seq<Option<RpcResponseView>> {
    Seq::new(slots.len(), |i: int| opt_view(slots[i]))
}

/// What is to be done with a call.
#[derive(Debug, Clone, PartialEq, Eq)]
pub enum CallPlan {
    /// A method call: the handler is to answer it.
    Invoke(RpcMethodCall),
    /// An invalid call: the response is at hand.
    Reply(RpcResponse),
    /// A notification: nothing is called, and nothing is answered.
    Silent,
}

/// Decides what is to be done with a call.
pub fn plan_call(call: RpcCall) -> (r: CallPlan)
    ensures
        match r {
            CallPlan::Invoke(c) => call@ == CallView::MethodCall(c@),
            CallPlan::Reply(response) => call@ is Invalid && response@
                == RpcResponseView::invalid_request(call@->id),
            CallPlan::Silent => call@ is Notification,
        },
{
    match call {
        RpcCall::MethodCall(c) => CallPlan::Invoke(c),
        RpcCall::Notification(_) => CallPlan::Silent,
        RpcCall::Invalid { id } => CallPlan::Reply(RpcResponse::invalid_request(id)),
    }
}

/// Answers one call.
pub fn handle_call<H: RpcHandler>(call: RpcCall, handler: &H) -> (r: Option<RpcResponse>)
    ensures
        answers_call(handler, call@, opt_view(r)),
{
    match plan_call(call) {
        CallPlan::Invoke(c) => Some(handler.on_call(c)),
        CallPlan::Reply(response) => Some(response),
        CallPlan::Silent => None,
    }
}

/// Makes the response to a batch from the slots of its calls: the responses that are
/// there, in the order of the slots, and no response where there is none.
pub fn responses_as_batch(outs: Vec<Option<RpcResponse>>) -> (r: Option<Response>)
    ensures
        opt_view(r) == batch_response(slots_view(outs@)),
{
    let ghost slots = slots_view(outs@);
    let mut batch: Vec<RpcResponse> = Vec::new();
    for out in iter: outs.into_iter()
        invariant
            iter.seq() == outs@,
            slots == slots_view(outs@),
            responses_view(batch@) == present(slots.take(iter.index() as int)),
    {
        proof {
            let i = iter.index() as int;
            assert(slots.take(i + 1).drop_last() =~= slots.take(i));
            assert(slots.take(i + 1).last() == opt_view(out));
        }
        match out {
            Some(response) => {
                let ghost before = responses_view(batch@);
                batch.push(response);
                assert(responses_view(batch@) =~= before.push(response@));
            },
            None => {},
        }
    }
    proof {
        assert(slots.take(outs@.len() as int) =~= slots);
    }
    if batch.is_empty() {
        None
    } else {
        Some(Response::Batch(batch))
    }
}

/// Makes the response to a request of one call from the slot of that call.
pub fn response_as_single(out: Option<RpcResponse>) -> (r: Option<Response>)
    ensures
        opt_view(r) == single_response(opt_view(out)),
{
    match out {
        Some(response) => Some(Response::Single(response)),
        None => None,
    }
}

/// Answers a request: one call by itself, the calls of a batch each by itself and in
/// their order. Nothing comes back exactly where nothing is owed; the responses to a
/// batch stand under the identifiers of the calls that are owed one, in their order.
pub fn handle_request<H: RpcHandler>(req: Request, handler: &H) -> (r: Option<Response>)
    ensures
        answers_request(handler, req@, opt_view(r)),
        r is None <==> owes_nothing(req@),
        r matches Some(response) ==> match req@ {
            RequestView::Single(call) => response@ is Single && response@->Single_0.id == owed_id(
                call,
            ),
            RequestView::Batch(calls) => response@ is Batch && response_ids(response@->Batch_0)
                == owed_ids(calls),
        },
{
    let ghost request = req@;
    let r = match req {
        Request::Single(call) => {
            let ghost model = call@;
            let out = handle_call(call, handler);
            proof {
                lemma_slot_follows_call(handler, model, opt_view(out));
            }
            response_as_single(out)
        },
        Request::Batch(calls) => {
            let ghost models = calls_view(calls@);
            let mut outs: Vec<Option<RpcResponse>> = Vec::new();
            for call in iter: calls.into_iter()
                invariant
                    iter.seq() == calls@,
                    models == calls_view(calls@),
                    outs@.len() == iter.index(),
                    forall|j: int|
                        0 <= j < iter.index() ==> answers_call(
                            handler,
                            models[j],
                            #[trigger] slots_view(outs@)[j],
                        ),
            {
                let out = handle_call(call, handler);
                let ghost before = slots_view(outs@);
                let ghost slot = opt_view(out);
                outs.push(out);
                proof {
                    let i = iter.index() as int;
                    assert(models[i] == call@);
                    assert(slots_view(outs@) =~= before.push(slot));
                    assert forall|j: int| 0 <= j < i + 1 implies answers_call(
                        handler,
                        models[j],
                        #[trigger] slots_view(outs@)[j],
                    ) by {
                        if j < i {
                            assert(slots_view(outs@)[j] == before[j]);
                        }
                    }
                }
            }
            let ghost slots = slots_view(outs@);
            let r = responses_as_batch(outs);
            proof {
                assert(answers_batch(handler, models, slots));
                lemma_batch_answered(handler, models, slots);
                lemma_batch_follows_calls(handler, models, opt_view(r));
            }
            r
        },
    };
    proof {
        lemma_nothing_owed(handler, request, opt_view(r));
    }
    r
}

/// Whether a response is what the transport sends for a request that it read: what
/// answers the request where something is owed; else, and where it read no request, an
/// invalid-request error under the null identifier.
pub open spec fn answers_transport<H: RpcHandler>(
    handler: &H,
    request: Option<RequestView>,
    response: ResponseView,
) -> bool {
    match request {
        Some(req) => if owes_nothing(req) {
            response == ResponseView::invalid_request()
        } else {
            answers_request(handler, req, Some(response))
        },
        None => response == ResponseView::invalid_request(),
    }
}

/// The request that a body stands for, where the transport could read a body and the
/// body is a request.
pub open spec fn request_of_body(body: Option<ValueView>) -> Option<RequestView> {
    match body {
        Some(value) => RequestView::decode(value),
        None => None,
    }
}

/// Answers what the transport read: a body that was no request, and a request to
/// which no response is owed, are both answered with an invalid-request error under
/// the null identifier.
pub fn handle<H: RpcHandler>(request: Option<Request>, handler: &H) -> (r: Response)
    ensures
        answers_transport(handler, opt_view(request), r@),
{
    match request {
        None => Response::error(RpcError::invalid_request()),
        Some(req) => or_invalid_request(handle_request(req, handler)),
    }
}

/// Answers the body that the transport read, where it could read one: a body that is
/// no request is answered like a body that could not be read.
pub fn handle_value<H: RpcHandler>(body: Option<&Value>, handler: &H) -> (r: Response)
    ensures
        answers_transport(handler, request_of_body(opt_view(body)), r@),
{
    match body {
        Some(value) => handle(Request::decode(value), handler),
        None => handle(None, handler),
    }
}

/// The response that the transport sends: the one that is owed, or, where none is owed,
/// an invalid-request error under the null identifier.
pub fn or_invalid_request(response: Option<Response>) -> (r: Response)
    ensures
        r@ == match response {
            Some(owed) => owed@,
            None => ResponseView::invalid_request(),
        },
{
    match response {
        Some(owed) => owed,
        None => Response::error(RpcError::invalid_request()),
    }
}

/// The identifier under which a call is answered; none for a notification.
pub open spec fn owed_id(call: CallView) -> Option<IdView> {
    match call {
        CallView::MethodCall(c) => Some(c.id),
        CallView::Notification(_) => None,
        CallView::Invalid { id } => Some(id),
    }
}

/// The identifiers under which the calls of a batch are answered, in the order of the
/// calls.
pub open spec fn owed_ids(calls: Seq<CallView>) -> Seq<Option<IdView>>
    decreases calls.len(),
{
    if calls.len() == 0 {
        Seq::empty()
    } else {
        match owed_id(calls.last()) {
            Some(id) => owed_ids(calls.drop_last()).push(Some(id)),
            None => owed_ids(calls.drop_last()),
        }
    }
}

/// The identifiers that the responses of a batch stand under, in their order.
pub open spec fn response_ids(responses: Seq<RpcResponseView>) -> Seq<Option<IdView>> {
    Seq::new(responses.len(), |i: int| responses[i].id)
}

/// Whether no response is owed to a request: it is a notification, or a batch that
/// holds notifications only, as the empty batch does.
pub open spec fn owes_nothing(request: RequestView) -> bool {
    match request {
        RequestView::Single(call) => call is Notification,
        RequestView::Batch(calls) => forall|i: int|
            0 <= i < calls.len() ==> (#[trigger] calls[i]) is Notification,
    }
}

/// A slot that answers a call holds a response exactly where one is owed, and the
/// response stands under the identifier of the call.
pub proof fn lemma_slot_follows_call<H: RpcHandler>(
    handler: &H,
    call: CallView,
    slot: Option<RpcResponseView>,
)
    requires
        answers_call(handler, call, slot),
    ensures
        slot is Some <==> call.owes_response(),
        slot matches Some(response) ==> response.id == owed_id(call),
{
}

/// No identifier is owed by a batch exactly where it holds notifications only.
pub proof fn lemma_owed_ids_empty(calls: Seq<CallView>)
    ensures
        owed_ids(calls).len() == 0 <==> owes_nothing(RequestView::Batch(calls)),
    decreases calls.len(),
{
    if calls.len() > 0 {
        let front = calls.drop_last();
        lemma_owed_ids_empty(front);
        if owed_id(calls.last()) is None && owes_nothing(RequestView::Batch(front)) {
            assert forall|i: int| 0 <= i < calls.len() implies (#[trigger] calls[i])
                is Notification by {
                if i < front.len() {
                    assert(front[i] is Notification);
                }
            }
        }
        if owes_nothing(RequestView::Batch(calls)) {
            assert(calls.last() is Notification);
            assert forall|i: int| 0 <= i < front.len() implies (#[trigger] front[i])
                is Notification by {
                assert(calls[i] is Notification);
            }
        }
    }
}

/// The responses that answer a batch are as many as the calls that are owed one, and
/// stand under the identifiers of those calls, in the order of the calls.
pub proof fn lemma_slots_follow_calls<H: RpcHandler>(
    handler: &H,
    calls: Seq<CallView>,
    slots: Seq<Option<RpcResponseView>>,
)
    requires
        answers_batch(handler, calls, slots),
    ensures
        response_ids(present(slots)) == owed_ids(calls),
    decreases calls.len(),
{
    if calls.len() == 0 {
        assert(response_ids(present(slots)) =~= owed_ids(calls));
    } else {
        let front = calls.drop_last();
        let before = slots.drop_last();
        assert(answers_batch(handler, front, before)) by {
            assert forall|i: int| 0 <= i < front.len() implies answers_call(
                handler,
                front[i],
                #[trigger] before[i],
            ) by {
                assert(answers_call(handler, calls[i], slots[i]));
            }
        }
        lemma_slots_follow_calls(handler, front, before);
        assert(answers_call(handler, calls.last(), slots[slots.len() - 1]));
        lemma_slot_follows_call(handler, calls.last(), slots.last());
        assert(response_ids(present(slots)) =~= owed_ids(calls));
    }
}

/// The response to a batch follows its calls: there is none where no call is owed one;
/// else it is a batch whose responses stand under the identifiers of the calls that
/// are owed one, in the order of the calls, whichever call was answered first.
pub proof fn lemma_batch_follows_calls<H: RpcHandler>(
    handler: &H,
    calls: Seq<CallView>,
    response: Option<ResponseView>,
)
    requires
        answers_all(handler, calls, response),
    ensures
        match response {
            None => owed_ids(calls).len() == 0,
            Some(ResponseView::Batch(responses)) => responses.len() > 0 && response_ids(
                responses,
            ) == owed_ids(calls),
            Some(ResponseView::Single(_)) => false,
        },
{
    let slots = choose|slots: Seq<Option<RpcResponseView>>|
        #![trigger answers_batch(handler, calls, slots)]
        answers_batch(handler, calls, slots) && response == batch_response(slots);
    lemma_slots_follow_calls(handler, calls, slots);
}

/// A request is left without a response exactly where none is owed: a notification
/// alone, a batch of notifications only, or an empty batch.
pub proof fn lemma_nothing_owed<H: RpcHandler>(
    handler: &H,
    request: RequestView,
    response: Option<ResponseView>,
)
    requires
        answers_request(handler, request, response),
    ensures
        response is None <==> owes_nothing(request),
{
    match request {
        RequestView::Single(call) => {},
        RequestView::Batch(calls) => {
            lemma_batch_follows_calls(handler, calls, response);
            lemma_owed_ids_empty(calls);
        },
    }
}

/// A method call is answered once, under its identifier. Where the domain has no such
/// method the answer is `MethodNotFound`; where the parameters do not fit the method
/// it is `InvalidParams` with the decoder's text, which is not empty; else it holds a
/// result that the handler may give for what the call decodes into.
pub proof fn lemma_method_call_answer<H: RpcHandler>(
    handler: &H,
    call: MethodCallView,
    slot: Option<RpcResponseView>,
)
    requires
        answers_call(handler, CallView::MethodCall(call), slot),
    ensures
        match call_failure::<H::Request>(call) {
            Some(DecodeErrorView::UnknownMethod) => slot == Some(
                RpcResponseView::error(call.id, RpcErrorView::of_code(ErrorCode::MethodNotFound)),
            ),
            Some(DecodeErrorView::InvalidParams(text)) => text.len() > 0 && slot == Some(
                RpcResponseView::error(
                    call.id,
                    RpcErrorView { code: ErrorCode::InvalidParams, message: text, data: None },
                ),
            ),
            None => slot is Some && slot->Some_0.id == Some(call.id) && handler_answers(
                handler,
                call,
                slot->Some_0.result,
            ),
        },
{
}

/// A value that has neither the shape of a method call nor that of a notification is
/// answered with an invalid-request error, under the identifier that can be read from
/// it, and under null where none can.
pub proof fn lemma_invalid_call<H: RpcHandler>(
    handler: &H,
    value: ValueView,
    slot: Option<RpcResponseView>,
)
    requires
        MethodCallView::decode(value) is None,
        NotificationView::decode(value) is None,
        answers_call(handler, CallView::decode(value), slot),
    ensures
        slot == Some(
            RpcResponseView {
                jsonrpc: Version::V2,
                id: Some(IdView::recovered(value)),
                result: ResponseResultView::Error(
                    RpcErrorView {
                        code: ErrorCode::InvalidRequest,
                        message: "Invalid request"@,
                        data: None,
                    },
                ),
            },
        ),
        !(value is Object) ==> slot->Some_0.id == Some(IdView::Null),
{
}

/// A body that is neither an object nor an array, like a body that could not be read,
/// is answered with one invalid-request error under the null identifier. So is an
/// object that has neither the shape of a method call nor that of a notification and
/// holds no identifier; where it holds one, the error stands under it.
pub proof fn lemma_malformed_body<H: RpcHandler>(
    handler: &H,
    body: Option<ValueView>,
    response: ResponseView,
)
    requires
        answers_transport(handler, request_of_body(body), response),
    ensures
        match body {
            None => response == ResponseView::invalid_request(),
            Some(value) => {
                &&& !(value is Object) && !(value is Array) ==> response
                    == ResponseView::invalid_request()
                &&& value is Object && MethodCallView::decode(value) is None
                    && NotificationView::decode(value) is None ==> response
                    == ResponseView::Single(
                    RpcResponseView::invalid_request(IdView::recovered(value)),
                )
            },
        },
        response == ResponseView::invalid_request() ==> response == ResponseView::Single(
            RpcResponseView {
                jsonrpc: Version::V2,
                id: Some(IdView::Null),
                result: ResponseResultView::Error(
                    RpcErrorView {
                        code: ErrorCode::InvalidRequest,
                        message: "Invalid request"@,
                        data: None,
                    },
                ),
            },
        ),
        ErrorCode::InvalidRequest.spec_code() == -32600,
{
}

} // verus!
