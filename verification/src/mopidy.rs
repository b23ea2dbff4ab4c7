//! The client of a Mopidy server: where its calls go, what is sent for one,
//! and what a reply amounts to.
//!
//! A call is one HTTP exchange. The client says what to post
//! ([`Client::call_request`]) and what the call returns once the transport has
//! reported ([`Client::call_result`]); the exchange itself is the caller's.

use crate::decimal::{nat_decimal, push_decimal};
use crate::envelope::{response_of, text_result, ApiResponse, MethodCall, MethodCallView};
use crate::error::{CallError, CallErrorView, DecodeFaultView};
use crate::json::{parsed_members, Field, FieldView, MemberView};
use vstd::prelude::*;
use vstd::string::*;

verus! {

/// The URL that calls are posted to: the server's address, a colon, the port
/// in decimal, and the path of Mopidy's RPC endpoint.
pub open spec fn endpoint_url(server_addr: Seq<char>, port: u32) -> Seq<char> {
    server_addr + ":"@ + nat_decimal(port as nat) + "/mopidy/rpc"@
}

/// The body of the request that calls `method`; `None` where the JSON writer
/// fails on it.
pub open spec fn request_body(method: Seq<char>) -> Option<Seq<char>> {
    (MethodCallView { jsonrpc: "2.0"@, id: 1, method }).encoded()
}

/// What a reply of these members gives as the result of a call.
pub open spec fn result_of(members: Seq<MemberView>) -> Result<FieldView, DecodeFaultView> {
    match response_of(members) {
        Ok(response) => Ok(response.result),
        Err(fault) => Err(fault),
    }
}

/// What a reply of these members gives as the playback state: the result,
/// which has to be a string.
pub open spec fn state_of(members: Seq<MemberView>) -> Result<Seq<char>, DecodeFaultView> {
    match response_of(members) {
        Ok(response) => text_result(response.result),
        Err(fault) => Err(fault),
    }
}

/// An HTTP POST, ready to be sent.
#[derive(Debug, Clone, PartialEq, Eq)]
pub struct HttpRequest {
    /// Where to post.
    pub url: String,
    /// The value of the `Content-Type` header.
    pub content_type: String,
    /// The body.
    pub body: String,
}

/// An [`HttpRequest`] as contracts see it.
pub struct HttpRequestView {
    pub url: Seq<char>,
    pub content_type: Seq<char>,
    pub body: Seq<char>,
}

impl View for HttpRequest {
    type V = HttpRequestView;

    open spec fn view(&self) -> HttpRequestView {
        HttpRequestView { url: self.url@, content_type: self.content_type@, body: self.body@ }
    }
}

/// Client for the JSON-RPC API of a Mopidy server: the URL of the server's
/// endpoint, and the HTTP transport that the owner posts with. The library
/// carries the transport for its owner and asks nothing of it.
pub struct Client<T> {
    pub api_url: String,
    pub client: T,
}

impl<T> Client<T> {
    /// A client for the server at `server_addr` (scheme and host) that
    /// listens on `port`. Nothing is sent, and the address is not examined.
    pub fn new(server_addr: &str, port: u32, client: T) -> (made: Client<T>)
        ensures
            made.api_url@ == endpoint_url(server_addr@, port),
            made.client == client,
    {
        let mut api_url = String::from_str(server_addr);
        api_url.append(":");
        push_decimal(&mut api_url, port as u64);
        api_url.append("/mopidy/rpc");
        Client { api_url, client }
    }

    /// The POST that calls `method`: to the client's endpoint, as
    /// `application/json`, with the request envelope of version `2.0` and
    /// request number 1 as its body.
    pub fn call_request(&self, method: &str) -> (made: Result<HttpRequest, CallError>)
        ensures
            match made {
                Ok(request) => request_body(method@) is Some && request@ == (HttpRequestView {
                    url: self.api_url@,
                    content_type: "application/json"@,
                    body: request_body(method@)->0,
                }),
                Err(error) => request_body(method@) is None && error@ is Encode,
            },
    {
        let body = match MethodCall::new(method).encode() {
            Ok(text) => text,
            Err(error) => {
                return Err(error);
            },
        };
        Ok(
            HttpRequest {
                url: self.api_url.clone(),
                content_type: String::from_str("application/json"),
                body,
            },
        )
    }

    /// What a call returns, given what the transport reported for its
    /// request: the body of the reply, or the description of its failure.
    ///
    /// A failure of the transport is handed on as it is, and nothing is
    /// decoded. A body is read as a response envelope, whose result is
    /// returned whatever its type.
    pub fn call_result(&self, reply: Result<String, String>) -> (returned: Result<
        Field,
        CallError,
    >)
        ensures
            match reply {
                Err(description) => returned matches Err(error) && error@
                    == CallErrorView::Transport(description@),
                Ok(body) => match parsed_members(body@) {
                    None => returned matches Err(error) && error@ matches CallErrorView::Decode(
                        DecodeFaultView::Syntax(_),
                    ),
                    Some(members) => match result_of(members) {
                        Ok(result) => returned matches Ok(field) && field@ == result,
                        Err(fault) => returned matches Err(error) && error@
                            == CallErrorView::Decode(fault),
                    },
                },
            },
    {
        let body = match reply {
            Ok(body) => body,
            Err(description) => {
                return Err(CallError::Transport(description));
            },
        };
        match ApiResponse::decode(body.as_str()) {
            Ok(response) => Ok(response.result),
            Err(fault) => Err(CallError::Decode(fault)),
        }
    }

    /// The POST that asks for the playback state: the call of
    /// `core.playback.get_state`.
    pub fn core_playback_get_state_request(&self) -> (made: Result<HttpRequest, CallError>)
        ensures
            match made {
                Ok(request) => request_body("core.playback.get_state"@) is Some && request@ == (
                HttpRequestView {
                    url: self.api_url@,
                    content_type: "application/json"@,
                    body: request_body("core.playback.get_state"@)->0,
                }),
                Err(error) => request_body("core.playback.get_state"@) is None && error@ is Encode,
            },
    {
        self.call_request("core.playback.get_state")
    }

    /// The current playback state of the server, given what the transport
    /// reported for [`Client::core_playback_get_state_request`].
    ///
    /// A failure of the transport is handed on as it is, and nothing is
    /// decoded. A body is read as a response envelope whose result is a
    /// string; a result of another type is a fault, not a state.
    pub fn core_playback_get_state(&self, reply: Result<String, String>) -> (returned: Result<
        String,
        CallError,
    >)
        ensures
            match reply {
                Err(description) => returned matches Err(error) && error@
                    == CallErrorView::Transport(description@),
                Ok(body) => match parsed_members(body@) {
                    None => returned matches Err(error) && error@ matches CallErrorView::Decode(
                        DecodeFaultView::Syntax(_),
                    ),
                    Some(members) => match state_of(members) {
                        Ok(state) => returned matches Ok(text) && text@ == state,
                        Err(fault) => returned matches Err(error) && error@
                            == CallErrorView::Decode(fault),
                    },
                },
            },
    {
        let body = match reply {
            Ok(body) => body,
            Err(description) => {
                return Err(CallError::Transport(description));
            },
        };
        let response = match ApiResponse::decode(body.as_str()) {
            Ok(response) => response,
            Err(fault) => {
                return Err(CallError::Decode(fault));
            },
        };
        match response.into_text() {
            Ok(state) => Ok(state),
            Err(fault) => Err(CallError::Decode(fault)),
        }
    }
}

} // verus!
