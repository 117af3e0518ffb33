//! Reading the request's extensions: what the server keeps beside the
//! headers of a request.

use axum::http::Extensions;
use hyper::ext::Protocol;
use hyper::upgrade::{OnUpgrade, Upgraded};
use vstd::prelude::*;

verus! {

/// `http::Extensions`: the values that a server keeps with a request, at most
/// one of each type.
#[verifier::external_type_specification]
#[verifier::external_body]
pub struct ExExtensions(Extensions);

/// `hyper::upgrade::OnUpgrade`: the pending transport, a future that
/// resolves once the server has switched the connection's protocol. The
/// library moves it and never looks inside.
#[verifier::external_type_specification]
#[verifier::external_body]
pub struct ExOnUpgrade(OnUpgrade);

/// `hyper::upgrade::Upgraded`: the raw transport that a pending transport
/// resolves to. The library never holds one. It is declared because
/// `OnUpgrade` is a future with this type in its output, and Verus reads
/// that impl with the declaration of `OnUpgrade`.
#[verifier::external_type_specification]
#[verifier::external_body]
pub struct ExUpgraded(Upgraded);

/// `hyper::Error`: the error that a pending transport resolves to where the
/// protocol was not switched. The library never holds one. It is declared
/// for the same reason as `Upgraded`.
#[verifier::external_type_specification]
#[verifier::external_body]
pub struct ExHyperError(hyper::Error);

/// The `:protocol` pseudo-header that the extensions hold: the bytes of
/// their value of type `hyper::ext::Protocol`.
pub uninterp spec fn protocol_extension(extensions: Extensions) -> Option<Seq<u8>>;

/// The pending transport that the extensions hold: their value of type
/// `hyper::upgrade::OnUpgrade`.
pub uninterp spec fn upgrade_extension(extensions: Extensions) -> Option<OnUpgrade>;

/// `Extensions::get` for the type `hyper::ext::Protocol`, followed by
/// `Protocol::as_str`.
///
/// Trusted: the result is the text of the `:protocol` pseudo-header that the
/// extensions hold, `None` where they hold none.
#[verifier::external_body]
pub(crate) fn get_protocol<'a>(extensions: &'a Extensions) -> (protocol: Option<&'a [u8]>)
    ensures
        match protocol {
            Some(bytes) => protocol_extension(*extensions) == Some(bytes@),
            None => protocol_extension(*extensions) is None,
        },
{
    match extensions.get::<Protocol>() {
        Some(protocol) => Some(protocol.as_str().as_bytes()),
        None => None,
    }
}

/// `Extensions::remove` for the type `hyper::upgrade::OnUpgrade`.
///
/// Trusted: the result is the pending transport that the extensions held,
/// and they hold none afterwards; the `:protocol` pseudo-header stays.
/// Extensions that held no pending transport are left as they were.
#[verifier::external_body]
pub(crate) fn take_on_upgrade(extensions: &mut Extensions) -> (on_upgrade: Option<OnUpgrade>)
    ensures
        on_upgrade == upgrade_extension(*old(extensions)),
        upgrade_extension(*final(extensions)) is None,
        protocol_extension(*final(extensions)) == protocol_extension(*old(extensions)),
        on_upgrade is None ==> *final(extensions) == *old(extensions),
{
    extensions.remove::<OnUpgrade>()
}

} // verus!
