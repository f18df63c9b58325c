//! Requests: one call or a batch of calls, and the grammar that reads and writes them.
//!
//! A call is resolved by its shape. An object that holds a valid `jsonrpc`, `method`,
//! `params` and `id`, and nothing else, is a method call. One that holds no `id` is a
//! notification. Everything else is an invalid call, which keeps the identifier that
//! could be read from it.

use crate::json::{get, member, members_view, opt_view, values_view, Value, ValueView};
use crate::text::{signed_decimal, signed_decimal_text};
use vstd::prelude::*;
use vstd::string::StringExecFns;

verus! {

/// The protocol version tag. On the wire it is the string `"2.0"`.
#[derive(Debug, Clone, Copy, PartialEq, Eq, Structural)]
pub enum Version {
    V2,
}

/// The parameters of a call.
#[derive(Debug, PartialEq, Eq)]
pub enum RequestParams {
    Absent,
    Array(Vec<Value>),
    Object(Vec<(String, Value)>),
}

/// The model of [`RequestParams`].
pub enum ParamsView {
    Absent,
    Array(Seq<ValueView>),
    Object(Seq<(Seq<char>, ValueView)>),
}

/// The identifier of a call.
#[derive(Debug, PartialEq, Eq)]
pub enum Id {
    String(String),
    Number(i64),
    Null,
}

/// The model of an [`Id`].
pub enum IdView {
    String(Seq<char>),
    Number(i64),
    Null,
}

/// A call that expects a response.
#[derive(Debug, Clone, PartialEq, Eq)]
pub struct RpcMethodCall {
    pub jsonrpc: Version,
    pub method: String,
    pub params: RequestParams,
    pub id: Id,
}

/// The model of an [`RpcMethodCall`].
pub struct MethodCallView {
    pub jsonrpc: Version,
    pub method: Seq<char>,
    pub params: ParamsView,
    pub id: IdView,
}

/// A call that expects no response.
#[derive(Debug, Clone, PartialEq, Eq)]
pub struct RpcNotification {
    pub jsonrpc: Option<Version>,
    pub method: String,
    pub params: RequestParams,
}

/// The model of an [`RpcNotification`].
pub struct NotificationView {
    pub jsonrpc: Option<Version>,
    pub method: Seq<char>,
    pub params: ParamsView,
}

/// One call of a request.
#[derive(Debug, Clone, PartialEq, Eq)]
pub enum RpcCall {
    MethodCall(RpcMethodCall),
    Notification(RpcNotification),
    Invalid { id: Id },
}

/// The model of an [`RpcCall`].
pub enum CallView {
    MethodCall(MethodCallView),
    Notification(NotificationView),
    Invalid { id: IdView },
}

/// A request: one call, or a batch of calls in the order in which they were written.
#[derive(Debug, Clone, PartialEq, Eq)]
pub enum Request {
    Single(RpcCall),
    Batch(Vec<RpcCall>),
}

/// The model of a [`Request`].
pub enum RequestView {
    Single(CallView),
    Batch(Seq<CallView>),
}

/// Whether a key is one of the four that a call may hold.
pub open spec fn is_call_key(key: Seq<char>) -> bool {
    key == "jsonrpc"@ || key == "method"@ || key == "params"@ || key == "id"@
}

/// Whether an object holds no key but the four that a call may hold.
pub open spec fn known_keys(members: Seq<(Seq<char>, ValueView)>) -> bool {
    forall|i: int| 0 <= i < members.len() ==> is_call_key((#[trigger] members[i]).0)
}

/// The version that a `jsonrpc` member stands for: it has to be there, and to be `"2.0"`.
pub open spec fn decode_version(field: Option<ValueView>) -> Option<Version> {
    if field == Some(ValueView::String("2.0"@)) {
        Some(Version::V2)
    } else {
        None
    }
}

/// The version that an optional `jsonrpc` member stands for: it may be missing or null.
pub open spec fn decode_optional_version(field: Option<ValueView>) -> Option<Option<Version>> {
    match field {
        None => Some(None),
        Some(ValueView::Null) => Some(None),
        Some(_) => match decode_version(field) {
            Some(v) => Some(Some(v)),
            None => None,
        },
    }
}

/// The name that a `method` member stands for: it has to be there, and to be a string.
pub open spec fn decode_method(field: Option<ValueView>) -> Option<Seq<char>> {
    match field {
        Some(ValueView::String(name)) => Some(name),
        _ => None,
    }
}

impl ParamsView {
    /// The parameters that a `params` member stands for. A missing member and a null
    /// both stand for no parameters; a string, a number or a boolean stands for nothing.
    pub open spec fn decode(field: Option<ValueView>) -> Option<ParamsView> {
        match field {
            None => Some(ParamsView::Absent),
            Some(ValueView::Null) => Some(ParamsView::Absent),
            Some(ValueView::Array(items)) => Some(ParamsView::Array(items)),
            Some(ValueView::Object(members)) => Some(ParamsView::Object(members)),
            Some(_) => None,
        }
    }

    /// The value that stands for the parameters.
    pub open spec fn encode(self) -> ValueView {
        match self {
            ParamsView::Absent => ValueView::Null,
            ParamsView::Array(items) => ValueView::Array(items),
            ParamsView::Object(members) => ValueView::Object(members),
        }
    }
}

impl IdView {
    /// The identifier that a value stands for: a string, an integer that fits `i64`,
    /// or null.
    pub open spec fn decode(value: ValueView) -> Option<IdView> {
        match value {
            ValueView::String(text) => Some(IdView::String(text)),
            ValueView::Null => Some(IdView::Null),
            _ => match value.as_i64() {
                Some(n) => Some(IdView::Number(n)),
                None => None,
            },
        }
    }

    /// The identifier that an `id` member stands for: it has to be there.
    pub open spec fn decode_field(field: Option<ValueView>) -> Option<IdView> {
        match field {
            Some(value) => IdView::decode(value),
            None => None,
        }
    }

    /// The value that stands for the identifier.
    pub open spec fn encode(self) -> ValueView {
        match self {
            IdView::String(text) => ValueView::String(text),
            IdView::Number(n) => ValueView::of_i64(n),
            IdView::Null => ValueView::Null,
        }
    }

    /// What the identifier reads as: the string itself, the integer in decimal, or the
    /// word `null`.
    pub open spec fn text(self) -> Seq<char> {
        match self {
            IdView::String(text) => text,
            IdView::Number(n) => signed_decimal_text(n as int),
            IdView::Null => "null"@,
        }
    }

    /// The identifier that can be read from a value that is no valid call: that of its
    /// `id` member where it has one that stands for an identifier, else null.
    pub open spec fn recovered(value: ValueView) -> IdView {
        match value {
            ValueView::Object(members) => match IdView::decode_field(member(members, "id"@)) {
                Some(id) => id,
                None => IdView::Null,
            },
            _ => IdView::Null,
        }
    }
}

impl MethodCallView {
    /// The method call that a value stands for, if it has that shape.
    pub open spec fn decode(value: ValueView) -> Option<MethodCallView> {
        match value {
            ValueView::Object(members) => {
                if known_keys(members) {
                    match (
                        decode_version(member(members, "jsonrpc"@)),
                        decode_method(member(members, "method"@)),
                        ParamsView::decode(member(members, "params"@)),
                        IdView::decode_field(member(members, "id"@)),
                    ) {
                        (Some(jsonrpc), Some(method), Some(params), Some(id)) => Some(
                            MethodCallView { jsonrpc, method, params, id },
                        ),
                        _ => None,
                    }
                } else {
                    None
                }
            },
            _ => None,
        }
    }

    /// The value that stands for the method call.
    pub open spec fn encode(self) -> ValueView {
        ValueView::Object(
            seq![
                ("jsonrpc"@, ValueView::String("2.0"@)),
                ("method"@, ValueView::String(self.method)),
                ("params"@, self.params.encode()),
                ("id"@, self.id.encode()),
            ],
        )
    }
}

impl NotificationView {
    /// The notification that a value stands for, if it has that shape.
    pub open spec fn decode(value: ValueView) -> Option<NotificationView> {
        match value {
            ValueView::Object(members) => {
                if known_keys(members) && member(members, "id"@) is None {
                    match (
                        decode_optional_version(member(members, "jsonrpc"@)),
                        decode_method(member(members, "method"@)),
                        ParamsView::decode(member(members, "params"@)),
                    ) {
                        (Some(jsonrpc), Some(method), Some(params)) => Some(
                            NotificationView { jsonrpc, method, params },
                        ),
                        _ => None,
                    }
                } else {
                    None
                }
            },
            _ => None,
        }
    }

    /// The value that stands for the notification.
    pub open spec fn encode(self) -> ValueView {
        ValueView::Object(
            seq![
                (
                    "jsonrpc"@,
                    match self.jsonrpc {
                        Some(_) => ValueView::String("2.0"@),
                        None => ValueView::Null,
                    },
                ),
                ("method"@, ValueView::String(self.method)),
                ("params"@, self.params.encode()),
            ],
        )
    }
}

impl CallView {
    /// The call that a value stands for. The shapes are tried in a fixed order, and the
    /// first that fits wins: method call, notification, invalid call.
    pub open spec fn decode(value: ValueView) -> CallView {
        match MethodCallView::decode(value) {
            Some(call) => CallView::MethodCall(call),
            None => match NotificationView::decode(value) {
                Some(notification) => CallView::Notification(notification),
                None => CallView::Invalid { id: IdView::recovered(value) },
            },
        }
    }

    /// The value that stands for the call.
    pub open spec fn encode(self) -> ValueView {
        match self {
            CallView::MethodCall(call) => call.encode(),
            CallView::Notification(notification) => notification.encode(),
            CallView::Invalid { id } => ValueView::Object(seq![("id"@, id.encode())]),
        }
    }

    /// Whether a response is owed to the call: to all but notifications.
    pub open spec fn owes_response(self) -> bool {
        !(self is Notification)
    }
}

impl RequestView {
    /// The request that a value stands for: an object is one call, an array is a batch
    /// whose items are calls, each read by itself. No other value is a request.
    pub open spec fn decode(value: ValueView) -> Option<RequestView> {
        match value {
            ValueView::Object(_) => Some(RequestView::Single(CallView::decode(value))),
            ValueView::Array(items) => Some(
                RequestView::Batch(Seq::new(items.len(), |i: int| CallView::decode(items[i]))),
            ),
            _ => None,
        }
    }

    /// The value that stands for the request.
    pub open spec fn encode(self) -> ValueView {
        match self {
            RequestView::Single(call) => call.encode(),
            RequestView::Batch(calls) => ValueView::Array(
                Seq::new(calls.len(), |i: int| calls[i].encode()),
            ),
        }
    }
}

impl View for RequestParams {
    type V = ParamsView;

    open spec fn view(&self) -> ParamsView {
        match self {
            RequestParams::Absent => ParamsView::Absent,
            RequestParams::Array(items) => ParamsView::Array(values_view(items@)),
            RequestParams::Object(members) => ParamsView::Object(members_view(members@)),
        }
    }
}

impl View for Id {
    type V = IdView;

    open spec fn view(&self) -> IdView {
        match self {
            Id::String(text) => IdView::String(text@),
            Id::Number(n) => IdView::Number(*n),
            Id::Null => IdView::Null,
        }
    }
}

impl View for RpcMethodCall {
    type V = MethodCallView;

    open spec fn view(&self) -> MethodCallView {
        MethodCallView {
            jsonrpc: self.jsonrpc,
            method: self.method@,
            params: self.params@,
            id: self.id@,
        }
    }
}

impl View for RpcNotification {
    type V = NotificationView;

    open spec fn view(&self) -> NotificationView {
        NotificationView { jsonrpc: self.jsonrpc, method: self.method@, params: self.params@ }
    }
}

impl View for RpcCall {
    type V = CallView;

    open spec fn view(&self) -> CallView {
        match self {
            RpcCall::MethodCall(call) => CallView::MethodCall(call@),
            RpcCall::Notification(notification) => CallView::Notification(notification@),
            RpcCall::Invalid { id } => CallView::Invalid { id: id@ },
        }
    }
}

/// The models of the calls of a batch, one for one.
pub open spec fn calls_view(calls: Seq<RpcCall>) -> Seq<CallView> {
    Seq::new(calls.len(), |i: int| calls[i]@)
}

impl View for Request {
    type V = RequestView;

    open spec fn view(&self) -> RequestView {
        match self {
            Request::Single(call) => RequestView::Single(call@),
            Request::Batch(calls) => RequestView::Batch(calls_view(calls@)),
        }
    }
}

impl Clone for RequestParams {
    fn clone(&self) -> (r: RequestParams)
        ensures
            r@ == self@,
    {
        match self {
            RequestParams::Absent => RequestParams::Absent,
            RequestParams::Array(items) => {
                let mut out: Vec<Value> = Vec::new();
                let mut i: usize = 0;
                while i < items.len()
                    invariant
                        i <= items.len(),
                        out@.len() == i,
                        forall|j: int| 0 <= j < i ==> out@[j]@ == items@[j]@,
                    decreases items.len() - i,
                {
                    out.push(items[i].clone());
                    i += 1;
                }
                assert(values_view(out@) =~= values_view(items@));
                RequestParams::Array(out)
            },
            RequestParams::Object(members) => {
                let mut out: Vec<(String, Value)> = Vec::new();
                let mut i: usize = 0;
                while i < members.len()
                    invariant
                        i <= members.len(),
                        out@.len() == i,
                        forall|j: int|
                            0 <= j < i ==> out@[j].0@ == members@[j].0@ && out@[j].1@
                                == members@[j].1@,
                    decreases members.len() - i,
                {
                    let member = &members[i];
                    out.push((member.0.clone(), member.1.clone()));
                    i += 1;
                }
                assert(members_view(out@) =~= members_view(members@));
                RequestParams::Object(out)
            },
        }
    }
}

impl Clone for Id {
    fn clone(&self) -> (r: Id)
        ensures
            r@ == self@,
    {
        match self {
            Id::String(text) => Id::String(text.clone()),
            Id::Number(n) => Id::Number(*n),
            Id::Null => Id::Null,
        }
    }
}

/// The identifier that a call falls back on where none can be read.
pub fn null_id() -> (r: Id)
    ensures
        r@ == IdView::Null,
{
    Id::Null
}

/// The parameters that a call falls back on where it holds none.
pub fn no_params() -> (r: RequestParams)
    ensures
        r@ == ParamsView::Absent,
{
    RequestParams::Absent
}

impl Version {
    /// The version that a `jsonrpc` member stands for.
    pub fn decode(field: Option<&Value>) -> (r: Option<Version>)
        ensures
            r == decode_version(opt_view(field)),
    {
        match field {
            Some(Value::String(text)) => {
                if *text == String::from_str("2.0") {
                    Some(Version::V2)
                } else {
                    None
                }
            },
            _ => None,
        }
    }

    /// The value that stands for the version.
    pub fn to_json(&self) -> (r: Value)
        ensures
            r@ == ValueView::String("2.0"@),
    {
        Value::from_str("2.0")
    }
}

impl RequestParams {
    /// The parameters that a `params` member stands for.
    pub fn decode(field: Option<&Value>) -> (r: Option<RequestParams>)
        ensures
            opt_view(r) == ParamsView::decode(opt_view(field)),
    {
        match field {
            None => Some(RequestParams::Absent),
            Some(value) => match value.clone() {
                Value::Null => Some(RequestParams::Absent),
                Value::Array(items) => Some(RequestParams::Array(items)),
                Value::Object(members) => Some(RequestParams::Object(members)),
                _ => None,
            },
        }
    }

    /// The value that stands for the parameters, made of the parameters themselves.
    pub fn into_json(self) -> (r: Value)
        ensures
            r@ == self@.encode(),
    {
        match self {
            RequestParams::Absent => Value::Null,
            RequestParams::Array(arr) => Value::Array(arr),
            RequestParams::Object(obj) => Value::Object(obj),
        }
    }

    /// The value that stands for the parameters.
    pub fn to_json(&self) -> (r: Value)
        ensures
            r@ == self@.encode(),
    {
        match self.clone() {
            RequestParams::Absent => Value::Null,
            RequestParams::Array(items) => Value::Array(items),
            RequestParams::Object(members) => Value::Object(members),
        }
    }
}

impl Id {
    /// The identifier as text.
    pub fn to_string(&self) -> (r: String)
        ensures
            r@ == self@.text(),
    {
        match self {
            Id::String(s) => s.clone(),
            Id::Number(n) => signed_decimal(*n),
            Id::Null => String::from_str("null"),
        }
    }

    /// The identifier that a value stands for.
    pub fn decode(value: &Value) -> (r: Option<Id>)
        ensures
            opt_view(r) == IdView::decode(value@),
    {
        match value {
            Value::String(text) => Some(Id::String(text.clone())),
            Value::Null => Some(Id::Null),
            _ => match value.as_i64() {
                Some(n) => Some(Id::Number(n)),
                None => None,
            },
        }
    }

    /// The value that stands for the identifier.
    pub fn to_json(&self) -> (r: Value)
        ensures
            r@ == self@.encode(),
    {
        match self {
            Id::String(text) => Value::String(text.clone()),
            Id::Number(n) => Value::from_i64(*n),
            Id::Null => Value::Null,
        }
    }
}

/// Whether an object holds no key but the four that a call may hold.
fn has_known_keys(members: &Vec<(String, Value)>) -> (r: bool)
    ensures
        r == known_keys(members_view(members@)),
{
    let jsonrpc = String::from_str("jsonrpc");
    let method = String::from_str("method");
    let params = String::from_str("params");
    let id = String::from_str("id");
    let ghost all = members_view(members@);
    let mut i: usize = 0;
    while i < members.len()
        invariant
            i <= members.len(),
            all == members_view(members@),
            jsonrpc@ == "jsonrpc"@,
            method@ == "method"@,
            params@ == "params"@,
            id@ == "id"@,
            forall|j: int| 0 <= j < i ==> is_call_key((#[trigger] all[j]).0),
        decreases members.len() - i,
    {
        let key = &members[i].0;
        if !(*key == jsonrpc || *key == method || *key == params || *key == id) {
            assert(!is_call_key(all[i as int].0));
            return false;
        }
        i += 1;
    }
    true
}

/// The name that a `method` member stands for.
fn method_name(field: Option<&Value>) -> (r: Option<String>)
    ensures
        opt_view(r) == decode_method(opt_view(field)),
{
    match field {
        Some(Value::String(name)) => Some(name.clone()),
        _ => None,
    }
}

impl RpcMethodCall {
    /// The method call that a value stands for, if it has that shape.
    pub fn decode(value: &Value) -> (r: Option<RpcMethodCall>)
        ensures
            opt_view(r) == MethodCallView::decode(value@),
    {
        match value {
            Value::Object(members) => {
                if !has_known_keys(members) {
                    return None;
                }
                let jsonrpc = Version::decode(get(members, "jsonrpc"));
                let method = method_name(get(members, "method"));
                let params = RequestParams::decode(get(members, "params"));
                let id = match get(members, "id") {
                    Some(value) => Id::decode(value),
                    None => None,
                };
                match (jsonrpc, method, params, id) {
                    (Some(jsonrpc), Some(method), Some(params), Some(id)) => Some(
                        RpcMethodCall { jsonrpc, method, params, id },
                    ),
                    _ => None,
                }
            },
            _ => None,
        }
    }

    /// The value that stands for the method call.
    pub fn to_json(&self) -> (r: Value)
        ensures
            r@ == self@.encode(),
    {
        let mut members: Vec<(String, Value)> = Vec::new();
        members.push((String::from_str("jsonrpc"), self.jsonrpc.to_json()));
        members.push((String::from_str("method"), Value::String(self.method.clone())));
        members.push((String::from_str("params"), self.params.to_json()));
        members.push((String::from_str("id"), self.id.to_json()));
        assert(members_view(members@) =~= self@.encode()->Object_0);
        Value::Object(members)
    }
}

impl RpcNotification {
    /// The notification that a value stands for, if it has that shape.
    pub fn decode(value: &Value) -> (r: Option<RpcNotification>)
        ensures
            opt_view(r) == NotificationView::decode(value@),
    {
        match value {
            Value::Object(members) => {
                if !has_known_keys(members) {
                    return None;
                }
                if get(members, "id").is_some() {
                    return None;
                }
                let jsonrpc = match get(members, "jsonrpc") {
                    None => Some(None),
                    Some(Value::Null) => Some(None),
                    Some(value) => match Version::decode(Some(value)) {
                        Some(version) => Some(Some(version)),
                        None => None,
                    },
                };
                let method = method_name(get(members, "method"));
                let params = RequestParams::decode(get(members, "params"));
                match (jsonrpc, method, params) {
                    (Some(jsonrpc), Some(method), Some(params)) => Some(
                        RpcNotification { jsonrpc, method, params },
                    ),
                    _ => None,
                }
            },
            _ => None,
        }
    }

    /// The value that stands for the notification.
    pub fn to_json(&self) -> (r: Value)
        ensures
            r@ == self@.encode(),
    {
        let version = match self.jsonrpc {
            Some(version) => version.to_json(),
            None => Value::Null,
        };
        let mut members: Vec<(String, Value)> = Vec::new();
        members.push((String::from_str("jsonrpc"), version));
        members.push((String::from_str("method"), Value::String(self.method.clone())));
        members.push((String::from_str("params"), self.params.to_json()));
        assert(members_view(members@) =~= self@.encode()->Object_0);
        Value::Object(members)
    }
}

impl Id {
    /// The identifier that can be read from a value that is no valid call.
    pub fn recover(value: &Value) -> (r: Id)
        ensures
            r@ == IdView::recovered(value@),
    {
        match value {
            Value::Object(members) => match get(members, "id") {
                Some(value) => match Id::decode(value) {
                    Some(id) => id,
                    None => Id::Null,
                },
                None => Id::Null,
            },
            _ => Id::Null,
        }
    }
}

impl RpcCall {
    /// The call that a value stands for. Every value stands for one: what is neither a
    /// method call nor a notification is an invalid call.
    pub fn decode(value: &Value) -> (r: RpcCall)
        ensures
            r@ == CallView::decode(value@),
    {
        match RpcMethodCall::decode(value) {
            Some(call) => RpcCall::MethodCall(call),
            None => match RpcNotification::decode(value) {
                Some(notification) => RpcCall::Notification(notification),
                None => RpcCall::Invalid { id: Id::recover(value) },
            },
        }
    }

    /// The value that stands for the call.
    pub fn to_json(&self) -> (r: Value)
        ensures
            r@ == self@.encode(),
    {
        match self {
            RpcCall::MethodCall(call) => call.to_json(),
            RpcCall::Notification(notification) => notification.to_json(),
            RpcCall::Invalid { id } => {
                let mut members: Vec<(String, Value)> = Vec::new();
                members.push((String::from_str("id"), id.to_json()));
                assert(members_view(members@) =~= self@.encode()->Object_0);
                Value::Object(members)
            },
        }
    }
}

impl Request {
    /// The request that a value stands for. An object is one call and an array a batch;
    /// any other value is no request.
    pub fn decode(value: &Value) -> (r: Option<Request>)
        ensures
            opt_view(r) == RequestView::decode(value@),
    {
        match value {
            Value::Object(_) => Some(Request::Single(RpcCall::decode(value))),
            Value::Array(items) => {
                let mut calls: Vec<RpcCall> = Vec::new();
                let mut i: usize = 0;
                while i < items.len()
                    invariant
                        i <= items.len(),
                        calls@.len() == i,
                        forall|j: int| 0 <= j < i ==> calls@[j]@ == CallView::decode(items@[j]@),
                    decreases items.len() - i,
                {
                    calls.push(RpcCall::decode(&items[i]));
                    i += 1;
                }
                proof {
                    let models = values_view(items@);
                    assert(value@ == ValueView::Array(models));
                    assert(calls_view(calls@) =~= Seq::new(
                        models.len(),
                        |i: int| CallView::decode(models[i]),
                    ));
                }
                Some(Request::Batch(calls))
            },
            _ => None,
        }
    }

    /// The value that stands for the request.
    pub fn to_json(&self) -> (r: Value)
        ensures
            r@ == self@.encode(),
    {
        match self {
            Request::Single(call) => call.to_json(),
            Request::Batch(calls) => {
                let mut items: Vec<Value> = Vec::new();
                let mut i: usize = 0;
                while i < calls.len()
                    invariant
                        i <= calls.len(),
                        items@.len() == i,
                        forall|j: int| 0 <= j < i ==> items@[j]@ == calls@[j]@.encode(),
                    decreases calls.len() - i,
                {
                    items.push(calls[i].to_json());
                    i += 1;
                }
                assert(values_view(items@) =~= self@.encode()->Array_0);
                Value::Array(items)
            },
        }
    }
}

/// The four keys of a call are four different strings.
pub proof fn lemma_call_keys_differ()
    ensures
        "jsonrpc"@ != "method"@,
        "jsonrpc"@ != "params"@,
        "jsonrpc"@ != "id"@,
        "method"@ != "params"@,
        "method"@ != "id"@,
        "params"@ != "id"@,
{
    reveal_strlit("jsonrpc");
    reveal_strlit("method");
    reveal_strlit("params");
    reveal_strlit("id");
    assert("jsonrpc"@.len() == 7 && "method"@.len() == 6 && "id"@.len() == 2);
    assert("method"@[0] != "params"@[0]);
}

/// Writing an identifier and reading it back gives the identifier.
pub proof fn lemma_id_round_trip(id: IdView)
    ensures
        IdView::decode(id.encode()) == Some(id),
{
}

/// Writing parameters and reading them back gives the parameters: absent parameters,
/// an empty array and an empty object stay three different things.
pub proof fn lemma_params_round_trip(params: ParamsView)
    ensures
        ParamsView::decode(Some(params.encode())) == Some(params),
{
}

/// Writing a call and reading it back gives the call.
pub proof fn lemma_call_round_trip(call: CallView)
    ensures
        CallView::decode(call.encode()) == call,
{
    lemma_call_keys_differ();
    reveal_with_fuel(member, 5);
    match call {
        CallView::MethodCall(c) => {
            lemma_id_round_trip(c.id);
            lemma_params_round_trip(c.params);
            let members = c.encode()->Object_0;
            assert(known_keys(members));
            assert(member(members, "jsonrpc"@) == Some(ValueView::String("2.0"@)));
            assert(member(members, "method"@) == Some(ValueView::String(c.method)));
            assert(member(members, "params"@) == Some(c.params.encode()));
            assert(member(members, "id"@) == Some(c.id.encode()));
            assert(MethodCallView::decode(c.encode()) == Some(c));
        },
        CallView::Notification(n) => {
            lemma_params_round_trip(n.params);
            let members = n.encode()->Object_0;
            assert(known_keys(members));
            assert(member(members, "id"@) is None);
            assert(decode_optional_version(member(members, "jsonrpc"@)) == Some(n.jsonrpc)) by {
                match n.jsonrpc {
                    Some(Version::V2) => {},
                    None => {},
                }
            }
            assert(member(members, "method"@) == Some(ValueView::String(n.method)));
            assert(member(members, "params"@) == Some(n.params.encode()));
            assert(MethodCallView::decode(n.encode()) is None);
            assert(NotificationView::decode(n.encode()) == Some(n));
        },
        CallView::Invalid { id } => {
            lemma_id_round_trip(id);
            let members = call.encode()->Object_0;
            assert(member(members, "id"@) == Some(id.encode()));
            assert(member(members, "jsonrpc"@) is None);
            assert(member(members, "method"@) is None);
            assert(MethodCallView::decode(call.encode()) is None);
            assert(NotificationView::decode(call.encode()) is None);
        },
    }
}

/// Writing a request and reading it back gives the request, whatever it holds.
pub proof fn lemma_request_round_trip(request: RequestView)
    ensures
        RequestView::decode(request.encode()) == Some(request),
{
    match request {
        RequestView::Single(call) => {
            lemma_call_round_trip(call);
        },
        RequestView::Batch(calls) => {
            let items = Seq::new(calls.len(), |i: int| calls[i].encode());
            let back = Seq::new(items.len(), |i: int| CallView::decode(items[i]));
            assert forall|i: int| 0 <= i < calls.len() implies back[i] == calls[i] by {
                lemma_call_round_trip(calls[i]);
            }
            assert(back =~= calls);
        },
    }
}

} // verus!
