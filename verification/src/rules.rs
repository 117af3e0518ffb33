//! The rules of the handshake: which requests are upgrade requests, and the
//! cause for which any other request is refused.

use crate::headers::{field_contains, field_equals, first_value};
use crate::names::{
    CONNECTION, SEC_WEBSOCKET_KEY, SEC_WEBSOCKET_PROTOCOL, SEC_WEBSOCKET_VERSION, UPGRADE,
    UPGRADE_TOKEN, WEBSOCKET, WEBSOCKET_VERSION,
};
use crate::rejection::Rejection;
use crate::request::{Method, RequestView};
use vstd::prelude::*;
use vstd::string::*;

verus! {

/// The cause, if any, for which the checks of the request's own HTTP version
/// refuse it.
///
/// HTTP/1.1 and older: the method is `GET`, the `Connection` header contains
/// `upgrade`, the `Upgrade` header is `websocket`, the `Sec-WebSocket-Key`
/// header is present. HTTP/2 and newer: the method is `CONNECT` and, where
/// extended `CONNECT` is supported, the `:protocol` pseudo-header is
/// `websocket`. The first check that fails gives the cause.
pub open spec fn version_rejection(request: RequestView, extended_connect: bool) -> Option<
    Rejection,
> {
    if request.version.upgrades_by_header() {
        if request.method != Method::Get {
            Some(Rejection::MethodNotGet)
        } else if !field_contains(request.fields, CONNECTION@, UPGRADE_TOKEN.spec_bytes()) {
            Some(Rejection::InvalidConnectionHeader)
        } else if !field_equals(request.fields, UPGRADE@, WEBSOCKET.spec_bytes()) {
            Some(Rejection::InvalidUpgradeHeader)
        } else if first_value(request.fields, SEC_WEBSOCKET_KEY@) is None {
            Some(Rejection::WebSocketKeyHeaderMissing)
        } else {
            None
        }
    } else {
        if request.method != Method::Connect {
            Some(Rejection::MethodNotConnect)
        } else if extended_connect && request.protocol != Some(WEBSOCKET.spec_bytes()) {
            Some(Rejection::InvalidProtocolPseudoheader)
        } else {
            None
        }
    }
}

/// The cause, if any, for which the checks that all versions share refuse a
/// request: the `Sec-WebSocket-Version` header is `13`, and the request
/// carries a pending transport.
pub open spec fn common_rejection(request: RequestView) -> Option<Rejection> {
    if !field_equals(request.fields, SEC_WEBSOCKET_VERSION@, WEBSOCKET_VERSION.spec_bytes()) {
        Some(Rejection::InvalidWebSocketVersionHeader)
    } else if !request.upgradable {
        Some(Rejection::ConnectionNotUpgradable)
    } else {
        None
    }
}

/// The cause for which a request is refused, `None` for an upgrade request.
/// The checks of the request's own version come first.
pub open spec fn rejection_of(request: RequestView, extended_connect: bool) -> Option<Rejection> {
    match version_rejection(request, extended_connect) {
        Some(cause) => Some(cause),
        None => common_rejection(request),
    }
}

/// The client's key that an upgrade request carries: the first value of
/// `Sec-WebSocket-Key` for HTTP/1.1 and older, none for HTTP/2 and newer.
pub open spec fn key_of(request: RequestView) -> Option<Seq<u8>> {
    if request.version.upgrades_by_header() {
        first_value(request.fields, SEC_WEBSOCKET_KEY@)
    } else {
        None
    }
}

/// The subprotocols that the client asks for, as the request states them.
pub open spec fn subprotocols_of(request: RequestView) -> Option<Seq<u8>> {
    first_value(request.fields, SEC_WEBSOCKET_PROTOCOL@)
}

} // verus!
