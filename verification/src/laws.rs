//! What holds of the rules for every request.

use crate::accept::{accept_token, lemma_base64_shape, sha1_digest, websocket_guid};
use crate::headers::{field_contains, field_equals, first_value};
use crate::rejection::Rejection;
use crate::request::{Method, RequestView};
use crate::response::{response_for, ResponseView};
use crate::names::{
    CONNECTION, SEC_WEBSOCKET_KEY, SEC_WEBSOCKET_VERSION, UPGRADE, UPGRADE_TOKEN, WEBSOCKET,
    WEBSOCKET_VERSION,
};
use crate::rules::{common_rejection, key_of, rejection_of, version_rejection};
use vstd::prelude::*;
use vstd::string::*;

verus! {

/// A request of HTTP/1.1 or older whose method is not `GET` is refused with
/// `MethodNotGet`, whatever its headers are.
pub proof fn lemma_method_not_get(request: RequestView, extended_connect: bool)
    requires
        request.version.upgrades_by_header(),
        request.method != Method::Get,
    ensures
        rejection_of(request, extended_connect) == Some(Rejection::MethodNotGet),
{
}

/// A `GET` request of HTTP/1.1 or older whose `Connection` header is missing,
/// or does not contain `upgrade` in any case of letters, is refused with
/// `InvalidConnectionHeader`.
pub proof fn lemma_invalid_connection_header(request: RequestView, extended_connect: bool)
    requires
        request.version.upgrades_by_header(),
        request.method == Method::Get,
        !field_contains(request.fields, CONNECTION@, UPGRADE_TOKEN.spec_bytes()),
    ensures
        rejection_of(request, extended_connect) == Some(Rejection::InvalidConnectionHeader),
{
}

/// A request that passes the checks of its own HTTP version, whichever that
/// is, and whose `Sec-WebSocket-Version` header is missing or is not `13`, is
/// refused with `InvalidWebSocketVersionHeader`, whether or not it carries a
/// pending transport.
pub proof fn lemma_invalid_websocket_version(request: RequestView, extended_connect: bool)
    requires
        version_rejection(request, extended_connect) is None,
        !field_equals(request.fields, SEC_WEBSOCKET_VERSION@, WEBSOCKET_VERSION.spec_bytes()),
    ensures
        rejection_of(request, extended_connect) == Some(
            Rejection::InvalidWebSocketVersionHeader,
        ),
{
}

/// A `CONNECT` request of HTTP/2 or newer without the `:protocol`
/// pseudo-header is refused with `InvalidProtocolPseudoheader` where extended
/// `CONNECT` is supported. Where it is not, the pseudo-header is not looked
/// at, and the checks that all versions share decide.
pub proof fn lemma_missing_protocol_pseudoheader(request: RequestView)
    requires
        !request.version.upgrades_by_header(),
        request.method == Method::Connect,
        request.protocol is None,
    ensures
        rejection_of(request, true) == Some(Rejection::InvalidProtocolPseudoheader),
        rejection_of(request, false) == common_rejection(request),
{
}

/// An upgrade request has a key if and only if it is of HTTP/1.1 or older.
pub proof fn lemma_key_iff_upgrade_by_header(request: RequestView, extended_connect: bool)
    requires
        rejection_of(request, extended_connect) is None,
    ensures
        key_of(request) is Some <==> request.version.upgrades_by_header(),
{
}

/// The response to an upgrade request of HTTP/1.1 or older: status 101, the
/// headers `Connection: Upgrade`, `Upgrade: websocket` and
/// `Sec-WebSocket-Accept` with the accept token of the request's key, in
/// this order and no others, and an empty body.
pub proof fn lemma_switching_protocols_response(request: RequestView, extended_connect: bool)
    requires
        request.version.upgrades_by_header(),
        rejection_of(request, extended_connect) is None,
    ensures
        key_of(request) == first_value(request.fields, SEC_WEBSOCKET_KEY@),
        key_of(request) matches Some(key) && response_for(key_of(request)) == (ResponseView {
            status: 101,
            headers: seq![
                ("Connection"@, "Upgrade".spec_bytes()),
                ("Upgrade"@, "websocket".spec_bytes()),
                ("Sec-WebSocket-Accept"@, accept_token(key)),
            ],
            body: Seq::empty(),
        }),
{
}

/// Whether a string is a header name made of ASCII letters and hyphens.
pub open spec fn is_plain_name(name: Seq<char>) -> bool {
    &&& name.len() > 0
    &&& forall|i: int|
        0 <= i < name.len() ==> {
            ||| 'a' <= #[trigger] name[i] <= 'z'
            ||| 'A' <= name[i] <= 'Z'
            ||| name[i] == '-'
        }
}

/// Whether a byte string is made of visible ASCII characters.
pub open spec fn is_visible_ascii(value: Seq<u8>) -> bool {
    forall|i: int| 0 <= i < value.len() ==> 0x21 <= #[trigger] value[i] <= 0x7e
}

/// Every header of a response can be sent as it is, whatever the key: its
/// name is made of ASCII letters and hyphens, its value of visible ASCII
/// characters.
pub proof fn lemma_response_headers_are_text(key: Option<Seq<u8>>)
    ensures
        forall|i: int|
            0 <= i < response_for(key).headers.len() ==> {
                &&& is_plain_name(#[trigger] response_for(key).headers[i].0)
                &&& is_visible_ascii(response_for(key).headers[i].1)
            },
{
    match key {
        Some(key) => {
            reveal_strlit("Connection");
            reveal_strlit("Upgrade");
            reveal_strlit("Sec-WebSocket-Accept");
            reveal_strlit("websocket");
            is_ascii_spec_bytes("Upgrade");
            is_ascii_spec_bytes("websocket");
            lemma_base64_shape(sha1_digest(key + websocket_guid()));
            let headers = response_for(Some(key)).headers;
            assert(is_plain_name(headers[0].0));
            assert(is_plain_name(headers[1].0));
            assert(is_plain_name(headers[2].0));
            assert(is_visible_ascii(headers[0].1));
            assert(is_visible_ascii(headers[1].1));
            assert(is_visible_ascii(headers[2].1));
        },
        None => {},
    }
}

/// Each rejection has one cause, and the causes exclude one another: the
/// checks before it pass and its own check fails.
pub proof fn lemma_rejection_causes(request: RequestView, extended_connect: bool)
    ensures
        ({
            let cause = rejection_of(request, extended_connect);
            let old_version = request.version.upgrades_by_header();
            let get = request.method == Method::Get;
            let connect = request.method == Method::Connect;
            let connection = field_contains(
                request.fields,
                CONNECTION@,
                UPGRADE_TOKEN.spec_bytes(),
            );
            let upgrade = field_equals(request.fields, UPGRADE@, WEBSOCKET.spec_bytes());
            let key = first_value(request.fields, SEC_WEBSOCKET_KEY@) is Some;
            let protocol = !extended_connect || request.protocol == Some(WEBSOCKET.spec_bytes());
            let version = field_equals(
                request.fields,
                SEC_WEBSOCKET_VERSION@,
                WEBSOCKET_VERSION.spec_bytes(),
            );
            let by_header = old_version && get && connection && upgrade && key;
            let by_connect = !old_version && connect && protocol;
            &&& cause == Some(Rejection::MethodNotGet) <==> old_version && !get
            &&& cause == Some(Rejection::InvalidConnectionHeader) <==> old_version && get
                && !connection
            &&& cause == Some(Rejection::InvalidUpgradeHeader) <==> old_version && get
                && connection && !upgrade
            &&& cause == Some(Rejection::WebSocketKeyHeaderMissing) <==> old_version && get
                && connection && upgrade && !key
            &&& cause == Some(Rejection::MethodNotConnect) <==> !old_version && !connect
            &&& cause == Some(Rejection::InvalidProtocolPseudoheader) <==> !old_version
                && connect && !protocol
            &&& cause == Some(Rejection::InvalidWebSocketVersionHeader) <==> (by_header
                || by_connect) && !version
            &&& cause == Some(Rejection::ConnectionNotUpgradable) <==> (by_header || by_connect)
                && version && !request.upgradable
            &&& cause is None <==> (by_header || by_connect) && version && request.upgradable
        }),
{
}

} // verus!
