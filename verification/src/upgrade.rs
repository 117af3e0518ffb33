//! The validated handshake: made from a request, finished once.

use crate::accept::sign;
use crate::ascii::bytes_eq;
use crate::extensions::{get_protocol, protocol_extension, take_on_upgrade, upgrade_extension};
use crate::failure::{DefaultOnFailedUpgrade, OnFailedUpgrade};
use crate::handoff::Handoff;
use crate::headers::{header_contains, header_eq, header_get};
use crate::names::{
    CONNECTION, CONNECTION_UPGRADE, SEC_WEBSOCKET_ACCEPT, SEC_WEBSOCKET_KEY,
    SEC_WEBSOCKET_PROTOCOL, SEC_WEBSOCKET_VERSION, UPGRADE, UPGRADE_TOKEN, WEBSOCKET,
    WEBSOCKET_VERSION,
};
use crate::rejection::Rejection;
use crate::request::{request_view, Method, RequestHead};
use crate::response::{
    connect_established, response_for, switching_protocols, Response, OK, SWITCHING_PROTOCOLS,
};
use crate::rules::{key_of, rejection_of, subprotocols_of};
use axum::http::Extensions;
use hyper::upgrade::OnUpgrade;
use vstd::prelude::*;
use vstd::slice::slice_to_vec;
use vstd::string::*;

verus! {

/// A handshake that has been validated and not yet finished.
///
/// It owns the pending transport of its request. It cannot be copied, and
/// finishing it uses it up, so a handshake is finished at most once.
pub struct RawSocketUpgrade<F = DefaultOnFailedUpgrade> {
    /// `None` if HTTP/2+ WebSockets are used.
    sec_websocket_key: Option<Vec<u8>>,
    on_upgrade: OnUpgrade,
    on_failed_upgrade: F,
    sec_websocket_protocol: Option<Vec<u8>>,
}

/// A validated handshake as a value.
pub struct HandshakeView<F> {
    /// The client's key: present for HTTP/1.1 and older, absent for HTTP/2
    /// and newer.
    pub key: Option<Seq<u8>>,
    /// The pending transport.
    pub pending: OnUpgrade,
    /// The failure policy.
    pub policy: F,
    /// The subprotocols that the client asked for, as the request stated
    /// them.
    pub subprotocols: Option<Seq<u8>>,
}

/// What finishing a handshake gives: the response to send, and what the
/// detached task needs to hand the transport over.
pub struct Finished<C, F> {
    /// The response to the upgrade request.
    pub response: Response,
    /// The pending transport, for the task to await.
    pub on_upgrade: OnUpgrade,
    /// The continuation and the failure policy, for the task to settle once
    /// the pending transport has resolved.
    pub handoff: Handoff<C, F>,
}

/// The bytes of an optional byte string.
pub open spec fn bytes_of(value: Option<Vec<u8>>) -> Option<Seq<u8>> {
    match value {
        Some(bytes) => Some(bytes@),
        None => None,
    }
}

impl<F> View for RawSocketUpgrade<F> {
    type V = HandshakeView<F>;

    closed spec fn view(&self) -> HandshakeView<F> {
        HandshakeView {
            key: bytes_of(self.sec_websocket_key),
            pending: self.on_upgrade,
            policy: self.on_failed_upgrade,
            subprotocols: bytes_of(self.sec_websocket_protocol),
        }
    }
}

impl RawSocketUpgrade<DefaultOnFailedUpgrade> {
    /// Validates a request as an upgrade request.
    ///
    /// The checks run in the order of the rules and the first one that fails
    /// gives the rejection; the extensions of a rejected request are left as
    /// they were. An upgrade request gives a handshake that holds the
    /// client's key (HTTP/1.1 and older), the subprotocols asked for, the
    /// default failure policy and the pending transport, which is taken out
    /// of the extensions.
    ///
    /// `extended_connect` says whether the server supports extended
    /// `CONNECT`; without it the `:protocol` pseudo-header is not checked.
    pub fn from_request_parts(
        head: &RequestHead<'_>,
        extensions: &mut Extensions,
        extended_connect: bool,
    ) -> (result: Result<Self, Rejection>)
        ensures
            match result {
                Ok(upgrade) => {
                    let request = request_view(*head, *old(extensions));
                    &&& rejection_of(request, extended_connect) is None
                    &&& upgrade@.key == key_of(request)
                    &&& upgrade@.subprotocols == subprotocols_of(request)
                    &&& Some(upgrade@.pending) == upgrade_extension(*old(extensions))
                    &&& upgrade_extension(*final(extensions)) is None
                    &&& protocol_extension(*final(extensions)) == protocol_extension(
                        *old(extensions),
                    )
                },
                Err(cause) => {
                    let request = request_view(*head, *old(extensions));
                    &&& rejection_of(request, extended_connect) == Some(cause)
                    &&& *final(extensions) == *old(extensions)
                },
            },
    {
        let sec_websocket_key = if head.version.is_http11_or_older() {
            if head.method != Method::Get {
                return Err(Rejection::MethodNotGet);
            }
            if !header_contains(head.headers, CONNECTION, UPGRADE_TOKEN) {
                return Err(Rejection::InvalidConnectionHeader);
            }
            if !header_eq(head.headers, UPGRADE, WEBSOCKET) {
                return Err(Rejection::InvalidUpgradeHeader);
            }
            match header_get(head.headers, SEC_WEBSOCKET_KEY) {
                Some(key) => Some(slice_to_vec(key)),
                None => {
                    return Err(Rejection::WebSocketKeyHeaderMissing);
                },
            }
        } else {
            if head.method != Method::Connect {
                return Err(Rejection::MethodNotConnect);
            }
            if extended_connect {
                let named = match get_protocol(extensions) {
                    Some(protocol) => bytes_eq(protocol, WEBSOCKET.as_bytes()),
                    None => false,
                };
                if !named {
                    return Err(Rejection::InvalidProtocolPseudoheader);
                }
            }
            None
        };

        if !header_eq(head.headers, SEC_WEBSOCKET_VERSION, WEBSOCKET_VERSION) {
            return Err(Rejection::InvalidWebSocketVersionHeader);
        }
        let on_upgrade = match take_on_upgrade(extensions) {
            Some(on_upgrade) => on_upgrade,
            None => {
                return Err(Rejection::ConnectionNotUpgradable);
            },
        };

        let sec_websocket_protocol = match header_get(head.headers, SEC_WEBSOCKET_PROTOCOL) {
            Some(value) => Some(slice_to_vec(value)),
            None => None,
        };

        Ok(
            Self {
                sec_websocket_key,
                on_upgrade,
                sec_websocket_protocol,
                on_failed_upgrade: DefaultOnFailedUpgrade,
            },
        )
    }
}

impl<F> RawSocketUpgrade<F> {
    /// Replaces the failure policy, which runs if the transport is never
    /// handed over. Everything else stays.
    pub fn on_failed_upgrade<C>(self, callback: C) -> (upgrade: RawSocketUpgrade<C>) where
        C: OnFailedUpgrade,

        ensures
            upgrade@ == (HandshakeView {
                key: self@.key,
                pending: self@.pending,
                policy: callback,
                subprotocols: self@.subprotocols,
            }),
    {
        RawSocketUpgrade {
            sec_websocket_key: self.sec_websocket_key,
            on_upgrade: self.on_upgrade,
            on_failed_upgrade: callback,
            sec_websocket_protocol: self.sec_websocket_protocol,
        }
    }

    /// Finishes the handshake, using it up.
    ///
    /// The response is the one to send now: for a handshake with a key,
    /// status 101 with the three headers of the handshake, the accept token
    /// of the key among them; without a key, status 200 with no header. The
    /// body is empty either way. Beside it stand the pending transport, and
    /// `callback` with the failure policy, for the task that hands the
    /// transport over.
    #[must_use]
    pub fn on_upgrade<C>(self, callback: C) -> (finished: Finished<C, F>) where F: OnFailedUpgrade
        ensures
            finished.response@ == response_for(self@.key),
            finished.on_upgrade == self@.pending,
            finished.handoff == (Handoff { callback, on_failed_upgrade: self@.policy }),
    {
        let response = match &self.sec_websocket_key {
            Some(sec_websocket_key) => {
                let mut headers: Vec<(String, Vec<u8>)> = Vec::new();
                headers.push((CONNECTION.to_owned(), slice_to_vec(CONNECTION_UPGRADE.as_bytes())));
                headers.push((UPGRADE.to_owned(), slice_to_vec(WEBSOCKET.as_bytes())));
                headers.push(
                    (SEC_WEBSOCKET_ACCEPT.to_owned(), sign(sec_websocket_key.as_slice())),
                );
                let response = Response { status: SWITCHING_PROTOCOLS, headers, body: Vec::new() };
                assert(response@.headers =~= switching_protocols(sec_websocket_key@).headers);
                response
            },
            None => {
                let response = Response { status: OK, headers: Vec::new(), body: Vec::new() };
                assert(response@.headers =~= connect_established().headers);
                response
            },
        };
        Finished {
            response,
            on_upgrade: self.on_upgrade,
            handoff: Handoff { callback, on_failed_upgrade: self.on_failed_upgrade },
        }
    }

    /// The client's key: present for HTTP/1.1 and older.
    pub fn sec_websocket_key(&self) -> (key: Option<&[u8]>)
        ensures
            match key {
                Some(bytes) => self@.key == Some(bytes@),
                None => self@.key is None,
            },
    {
        match &self.sec_websocket_key {
            Some(key) => Some(key.as_slice()),
            None => None,
        }
    }

    /// The subprotocols that the client asked for, as the request stated
    /// them.
    pub fn sec_websocket_protocol(&self) -> (subprotocols: Option<&[u8]>)
        ensures
            match subprotocols {
                Some(bytes) => self@.subprotocols == Some(bytes@),
                None => self@.subprotocols is None,
            },
    {
        match &self.sec_websocket_protocol {
            Some(value) => Some(value.as_slice()),
            None => None,
        }
    }
}

} // verus!
