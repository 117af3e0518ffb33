//! The response that answers an upgrade request.

use crate::accept::accept_token;
use crate::names::{CONNECTION, CONNECTION_UPGRADE, SEC_WEBSOCKET_ACCEPT, UPGRADE, WEBSOCKET};
use vstd::prelude::*;
use vstd::string::*;

verus! {

/// The status code of a response that switches protocols.
pub const SWITCHING_PROTOCOLS: u16 = 101;

/// The status code of a response that reports success.
pub const OK: u16 = 200;

/// A response: status code, headers in the order in which they are sent,
/// and body.
#[derive(Debug)]
pub struct Response {
    /// The status code.
    pub status: u16,
    /// The headers, each a name and a value.
    pub headers: Vec<(String, Vec<u8>)>,
    /// The body.
    pub body: Vec<u8>,
}

/// A response as a value.
pub struct ResponseView {
    /// The status code.
    pub status: u16,
    /// The headers, each a name and a value.
    pub headers: Seq<(Seq<char>, Seq<u8>)>,
    /// The body.
    pub body: Seq<u8>,
}

impl View for Response {
    type V = ResponseView;

    open spec fn view(&self) -> ResponseView {
        ResponseView {
            status: self.status,
            headers: Seq::new(
                self.headers@.len(),
                |i: int| (self.headers@[i].0@, self.headers@[i].1@),
            ),
            body: self.body@,
        }
    }
}

/// The response that switches an HTTP/1.1 connection to the WebSocket
/// protocol for a client that sent `key`: status 101, the headers
/// `Connection: Upgrade`, `Upgrade: websocket` and `Sec-WebSocket-Accept`
/// with the accept token of the key, no body.
pub open spec fn switching_protocols(key: Seq<u8>) -> ResponseView {
    ResponseView {
        status: SWITCHING_PROTOCOLS,
        headers: seq![
            (CONNECTION@, CONNECTION_UPGRADE.spec_bytes()),
            (UPGRADE@, WEBSOCKET.spec_bytes()),
            (SEC_WEBSOCKET_ACCEPT@, accept_token(key)),
        ],
        body: Seq::empty(),
    }
}

/// The response to an extended `CONNECT` request: status 200, no header, no
/// body. The request itself has switched the protocol of its stream.
pub open spec fn connect_established() -> ResponseView {
    ResponseView { status: OK, headers: Seq::empty(), body: Seq::empty() }
}

/// The response to an upgrade request whose key, if it has one, is `key`.
pub open spec fn response_for(key: Option<Seq<u8>>) -> ResponseView {
    match key {
        Some(key) => switching_protocols(key),
        None => connect_established(),
    }
}

} // verus!
