//! Why a request is refused.

use vstd::prelude::*;

verus! {

/// The causes for which a request is refused as an upgrade request. Each
/// cause has one value of its own.
#[derive(Clone, Copy, Debug, PartialEq, Eq, Structural, Hash)]
pub enum Rejection {
    /// The request is HTTP/1.1 or older and its method is not `GET`.
    MethodNotGet,
    /// The request is HTTP/2 or newer and its method is not `CONNECT`.
    MethodNotConnect,
    /// The `Connection` header is missing or does not contain `upgrade`.
    InvalidConnectionHeader,
    /// The `Upgrade` header is missing or is not `websocket`.
    InvalidUpgradeHeader,
    /// The `Sec-WebSocket-Version` header is missing or is not `13`.
    InvalidWebSocketVersionHeader,
    /// The `Sec-WebSocket-Key` header is missing.
    WebSocketKeyHeaderMissing,
    /// The `:protocol` pseudo-header is missing or is not `websocket`.
    InvalidProtocolPseudoheader,
    /// The server has prepared no upgrade for the connection.
    ConnectionNotUpgradable,
}

} // verus!
