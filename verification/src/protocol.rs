//! Requests and responses: which message holds a request, where a request
//! is routed, and which response goes back.

use crate::config::{ConfigView, ServerConfig};
use crate::json::{
    find_member, lemma_object_view, member_views, option_view, string, Json, JsonView, Member,
    MemberView,
};
use crate::text::is_text;
use crate::tools::{catalog_json, list_tools, requested_call, ToolCall, ToolCallView};
use vstd::prelude::*;

verus! {

/// The protocol version that every response carries.
pub const JSONRPC_VERSION: &'static str = "2.0";

/// The method of the handshake.
pub const INITIALIZE: &'static str = "initialize";

/// The method by which a client acknowledges the handshake.
pub const INITIALIZED: &'static str = "notifications/initialized";

/// The method that asks for the catalog of tools.
pub const TOOLS_LIST: &'static str = "tools/list";

/// The method that calls a tool.
pub const TOOLS_CALL: &'static str = "tools/call";

/// The version of the tool protocol that the handshake announces.
pub const PROTOCOL_VERSION: &'static str = "2024-11-05";

/// The name under which the server introduces itself.
pub const SERVER_NAME: &'static str = "git-summarizer";

/// The version under which the server introduces itself.
pub const SERVER_VERSION: &'static str = "0.1.0";

/// The code of the error for a method that the server does not know, as a
/// JSON number.
pub const METHOD_NOT_FOUND_CODE: &'static str = "-32601";

/// The message of the error for a method that the server does not know.
pub const METHOD_NOT_FOUND_MESSAGE: &'static str = "Method not found";

/// The methods that the server knows differ from one another.
pub proof fn lemma_methods_differ()
    ensures
        INITIALIZE@ != INITIALIZED@,
        INITIALIZE@ != TOOLS_LIST@,
        INITIALIZE@ != TOOLS_CALL@,
        INITIALIZED@ != TOOLS_LIST@,
        INITIALIZED@ != TOOLS_CALL@,
        TOOLS_LIST@ != TOOLS_CALL@,
{
    reveal_strlit("initialize");
    reveal_strlit("notifications/initialized");
    reveal_strlit("tools/list");
    reveal_strlit("tools/call");
    assert(INITIALIZE@.len() == 10);
    assert(INITIALIZED@.len() == 25);
    assert(TOOLS_LIST@.len() == 10);
    assert(TOOLS_CALL@.len() == 10);
    assert(INITIALIZE@[0] == 'i');
    assert(TOOLS_LIST@[0] == 't');
    assert(TOOLS_CALL@[0] == 't');
    assert(TOOLS_LIST@[6] == 'l');
    assert(TOOLS_CALL@[6] == 'c');
}

/// A decoded message: the method to carry out, its parameters, and the id
/// under which the sender expects the answer. A message without an id is a
/// notification.
#[derive(Debug, PartialEq, Eq)]
pub struct Request {
    pub id: Option<Json>,
    pub method: String,
    pub params: Option<Json>,
}

/// The mathematical value of a [`Request`].
pub struct RequestView {
    pub id: Option<JsonView>,
    pub method: Seq<char>,
    pub params: Option<JsonView>,
}

impl View for Request {
    type V = RequestView;

    open spec fn view(&self) -> RequestView {
        RequestView {
            id: option_view(self.id),
            method: self.method@,
            params: option_view(self.params),
        }
    }
}

/// The value of an optional request.
pub open spec fn request_view(request: Option<Request>) -> Option<RequestView> {
    match request {
        Some(r) => Some(r@),
        None => None,
    }
}

/// The request that a message holds. A message is a request where it is an
/// object with a string under `jsonrpc` and a string under `method`; `id` and
/// `params` count as missing where they are `null`.
pub open spec fn decoded(message: JsonView) -> Option<RequestView> {
    match (message.member("jsonrpc"@), message.member("method"@)) {
        (Some(JsonView::Str(_)), Some(JsonView::Str(method))) => Some(
            RequestView {
                id: JsonView::present(message.member("id"@)),
                method,
                params: JsonView::present(message.member("params"@)),
            },
        ),
        _ => None,
    }
}

/// The four keys of a request differ from one another.
pub proof fn lemma_request_keys_differ()
    ensures
        "jsonrpc"@ != "method"@,
        "jsonrpc"@ != "id"@,
        "jsonrpc"@ != "params"@,
        "method"@ != "id"@,
        "method"@ != "params"@,
        "id"@ != "params"@,
{
    reveal_strlit("jsonrpc");
    reveal_strlit("method");
    reveal_strlit("id");
    reveal_strlit("params");
    assert("jsonrpc"@.len() == 7);
    assert("method"@.len() == 6);
    assert("id"@.len() == 2);
    assert("params"@.len() == 6);
    assert("method"@[0] == 'm');
    assert("params"@[0] == 'p');
}

/// What is known of the value under `key` while the members are taken from
/// the end of the list: the value kept in `slot`, else what the members
/// that are left hold.
spec fn kept(slot: Option<Json>, rest: Seq<MemberView>, key: Seq<char>) -> Option<
    JsonView,
> {
    match slot {
        Some(v) => Some(v@),
        None => find_member(rest, key),
    }
}

/// The value, unless it is `null`.
fn present(value: Option<Json>) -> (r: Option<Json>)
    ensures
        option_view(r) == JsonView::present(option_view(value)),
{
    match value {
        Some(Json::Null) => None,
        other => other,
    }
}

impl Request {
    /// The request that `message` holds, where it holds one.
    pub fn decode(message: Json) -> (r: Option<Request>)
        ensures
            request_view(r) == decoded(message@),
    {
        let mut members = match message {
            Json::Object(members) => members,
            _ => {
                return None;
            },
        };
        proof {
            lemma_object_view(members);
            lemma_request_keys_differ();
        }
        let ghost all = member_views(members@);
        let mut version: Option<Json> = None;
        let mut method: Option<Json> = None;
        let mut id: Option<Json> = None;
        let mut params: Option<Json> = None;
        while members.len() > 0
            invariant
                "jsonrpc"@ != "method"@,
                "jsonrpc"@ != "id"@,
                "jsonrpc"@ != "params"@,
                "method"@ != "id"@,
                "method"@ != "params"@,
                "id"@ != "params"@,
                find_member(all, "jsonrpc"@) == kept(version, member_views(members@), "jsonrpc"@),
                find_member(all, "method"@) == kept(method, member_views(members@), "method"@),
                find_member(all, "id"@) == kept(id, member_views(members@), "id"@),
                find_member(all, "params"@) == kept(params, member_views(members@), "params"@),
            decreases members.len(),
        {
            let ghost before = member_views(members@);
            let member = members.pop().unwrap();
            proof {
                assert(before.last() == (MemberView { key: member.key@, value: member.value@ }));
                assert(before.drop_last() =~= member_views(members@));
            }
            let Member { key, value } = member;
            if is_text(&key, "jsonrpc") {
                if version.is_none() {
                    version = Some(value);
                }
            } else if is_text(&key, "method") {
                if method.is_none() {
                    method = Some(value);
                }
            } else if is_text(&key, "id") {
                if id.is_none() {
                    id = Some(value);
                }
            } else if is_text(&key, "params") {
                if params.is_none() {
                    params = Some(value);
                }
            }
        }
        match (version, method) {
            (Some(Json::Str(_)), Some(Json::Str(method))) => Some(
                Request { id: present(id), method, params: present(params) },
            ),
            _ => None,
        }
    }
}

/// What a handler hands back for a request: a result, or the error for a
/// method that the server does not know.
#[derive(Debug, PartialEq, Eq)]
pub enum Payload {
    Result(Json),
    MethodNotFound,
}

/// The mathematical value of a [`Payload`].
pub enum PayloadView {
    Result(JsonView),
    MethodNotFound,
}

impl View for Payload {
    type V = PayloadView;

    open spec fn view(&self) -> PayloadView {
        match self {
            Payload::Result(result) => PayloadView::Result(result@),
            Payload::MethodNotFound => PayloadView::MethodNotFound,
        }
    }
}

/// The value of an optional payload.
pub open spec fn payload_view(payload: Option<Payload>) -> Option<PayloadView> {
    match payload {
        Some(p) => Some(p@),
        None => None,
    }
}

/// The result of the handshake: the protocol version, the capabilities and
/// the identity of the server.
pub open spec fn handshake() -> JsonView {
    JsonView::object().with("protocolVersion", string(PROTOCOL_VERSION)).with(
        "capabilities",
        JsonView::object().with(
            "tools",
            JsonView::object().with("listChanged", JsonView::Bool(true)),
        ),
    ).with(
        "serverInfo",
        JsonView::object().with("name", string(SERVER_NAME)).with(
            "version",
            string(SERVER_VERSION),
        ),
    )
}

/// The error object for a method that the server does not know.
pub open spec fn method_not_found() -> JsonView {
    JsonView::object().with("code", JsonView::Number(METHOD_NOT_FOUND_CODE@)).with(
        "message",
        string(METHOD_NOT_FOUND_MESSAGE),
    )
}

/// The response that carries `payload` back under `id`.
pub open spec fn response(id: JsonView, payload: PayloadView) -> JsonView {
    let head = JsonView::object().with("jsonrpc", string(JSONRPC_VERSION)).with("id", id);
    match payload {
        PayloadView::Result(result) => head.with("result", result),
        PayloadView::MethodNotFound => head.with("error", method_not_found()),
    }
}

/// The response, where there is one: a message is answered where it carries
/// an id and its handler hands back a payload.
pub open spec fn reply(id: Option<JsonView>, payload: Option<PayloadView>) -> Option<JsonView> {
    match (id, payload) {
        (Some(i), Some(p)) => Some(response(i, p)),
        _ => None,
    }
}

/// What the server does with a request before it touches the repository:
/// it is done, with a payload or without one, or it has a tool to call.
#[derive(Debug, PartialEq, Eq)]
pub enum Dispatch {
    Done(Option<Payload>),
    Call(ToolCall),
}

/// The mathematical value of a [`Dispatch`].
pub enum DispatchView {
    Done(Option<PayloadView>),
    Call(ToolCallView),
}

impl View for Dispatch {
    type V = DispatchView;

    open spec fn view(&self) -> DispatchView {
        match self {
            Dispatch::Done(payload) => DispatchView::Done(payload_view(*payload)),
            Dispatch::Call(call) => DispatchView::Call(call@),
        }
    }
}

/// Where `request` is routed under the configuration `config`, by its
/// method. A method that the server does not know is an error for a request
/// and nothing for a notification.
pub open spec fn dispatched(request: RequestView, config: ConfigView) -> DispatchView {
    if request.method == INITIALIZE@ {
        DispatchView::Done(Some(PayloadView::Result(handshake())))
    } else if request.method == INITIALIZED@ {
        DispatchView::Done(None)
    } else if request.method == TOOLS_LIST@ {
        DispatchView::Done(Some(PayloadView::Result(catalog_json(config))))
    } else if request.method == TOOLS_CALL@ {
        DispatchView::Call(requested_call(request.params))
    } else if request.id is Some {
        DispatchView::Done(Some(PayloadView::MethodNotFound))
    } else {
        DispatchView::Done(None)
    }
}

/// The configuration after `request`: only the handshake changes it.
pub open spec fn config_after(request: RequestView, config: ConfigView) -> ConfigView {
    if request.method == INITIALIZE@ {
        config.configured(request.params)
    } else {
        config
    }
}

/// The result of the handshake.
pub fn handshake_result() -> (r: Json)
    ensures
        r@ == handshake(),
{
    Json::object().with("protocolVersion", Json::text(PROTOCOL_VERSION)).with(
        "capabilities",
        Json::object().with("tools", Json::object().with("listChanged", Json::Bool(true))),
    ).with(
        "serverInfo",
        Json::object().with("name", Json::text(SERVER_NAME)).with(
            "version",
            Json::text(SERVER_VERSION),
        ),
    )
}

/// Routes `request` by its method and applies what a handshake configures.
pub fn dispatch(request: &Request, config: &mut ServerConfig) -> (r: Dispatch)
    ensures
        r@ == dispatched(request@, old(config)@),
        final(config)@ == config_after(request@, old(config)@),
{
    if is_text(&request.method, INITIALIZE) {
        config.configure(request.params.as_ref());
        Dispatch::Done(Some(Payload::Result(handshake_result())))
    } else if is_text(&request.method, INITIALIZED) {
        Dispatch::Done(None)
    } else if is_text(&request.method, TOOLS_LIST) {
        Dispatch::Done(Some(Payload::Result(list_tools(config))))
    } else if is_text(&request.method, TOOLS_CALL) {
        Dispatch::Call(ToolCall::parse(request.params.as_ref()))
    } else if request.id.is_some() {
        Dispatch::Done(Some(Payload::MethodNotFound))
    } else {
        Dispatch::Done(None)
    }
}

/// The response to a message with the id `id` whose handler handed back
/// `payload`, where there is one.
pub fn respond(id: Option<Json>, payload: Option<Payload>) -> (r: Option<Json>)
    ensures
        option_view(r) == reply(option_view(id), payload_view(payload)),
{
    match (id, payload) {
        (Some(id), Some(payload)) => {
            let head = Json::object().with("jsonrpc", Json::text(JSONRPC_VERSION)).with("id", id);
            match payload {
                Payload::Result(result) => Some(head.with("result", result)),
                Payload::MethodNotFound => Some(
                    head.with(
                        "error",
                        Json::object().with("code", Json::number(METHOD_NOT_FOUND_CODE)).with(
                            "message",
                            Json::text(METHOD_NOT_FOUND_MESSAGE),
                        ),
                    ),
                ),
            }
        },
        _ => None,
    }
}

} // verus!
