//! The header names and the tokens of the handshake.

use vstd::prelude::*;

verus! {

/// The name of the `Connection` header.
pub const CONNECTION: &'static str = "Connection";

/// The name of the `Upgrade` header.
pub const UPGRADE: &'static str = "Upgrade";

/// The name of the `Sec-WebSocket-Key` header.
pub const SEC_WEBSOCKET_KEY: &'static str = "Sec-WebSocket-Key";

/// The name of the `Sec-WebSocket-Version` header.
pub const SEC_WEBSOCKET_VERSION: &'static str = "Sec-WebSocket-Version";

/// The name of the `Sec-WebSocket-Protocol` header.
pub const SEC_WEBSOCKET_PROTOCOL: &'static str = "Sec-WebSocket-Protocol";

/// The name of the `Sec-WebSocket-Accept` header.
pub const SEC_WEBSOCKET_ACCEPT: &'static str = "Sec-WebSocket-Accept";

/// The token that the `Connection` header of an upgrade request contains,
/// in lower case.
pub const UPGRADE_TOKEN: &'static str = "upgrade";

/// The value of the `Connection` header of a response that switches
/// protocols.
pub const CONNECTION_UPGRADE: &'static str = "Upgrade";

/// The name of the WebSocket protocol: in a request, the value of the
/// `Upgrade` header and of the `:protocol` pseudo-header; in a response, the
/// value of the `Upgrade` header.
pub const WEBSOCKET: &'static str = "websocket";

/// The only version of the WebSocket protocol that is accepted.
pub const WEBSOCKET_VERSION: &'static str = "13";

} // verus!
