//! What the validator reads of a request.

use crate::extensions::{protocol_extension, upgrade_extension};
use crate::headers::header_fields;
use axum::http::header::{HeaderMap, HeaderValue};
use axum::http::Extensions;
use vstd::prelude::*;

verus! {

/// A version of HTTP.
#[derive(Clone, Copy, Debug, PartialEq, Eq, Structural, Hash)]
pub enum Version {
    /// HTTP/0.9
    Http09,
    /// HTTP/1.0
    Http10,
    /// HTTP/1.1
    Http11,
    /// HTTP/2
    Http2,
    /// HTTP/3
    Http3,
}

impl Version {
    /// The place of the version in the order of the versions.
    pub open spec fn rank(self) -> int {
        match self {
            Version::Http09 => 0,
            Version::Http10 => 1,
            Version::Http11 => 2,
            Version::Http2 => 3,
            Version::Http3 => 4,
        }
    }

    /// Whether the version is HTTP/1.1 or older: the versions that upgrade a
    /// connection with the `Upgrade` header.
    pub open spec fn upgrades_by_header(self) -> bool {
        self.rank() <= Version::Http11.rank()
    }

    /// Whether the version is HTTP/1.1 or older.
    pub fn is_http11_or_older(&self) -> (r: bool)
        ensures
            r == self.upgrades_by_header(),
    {
        match self {
            Version::Http09 | Version::Http10 | Version::Http11 => true,
            Version::Http2 | Version::Http3 => false,
        }
    }
}

/// A request method.
#[derive(Clone, Copy, Debug, PartialEq, Eq, Structural, Hash)]
pub enum Method {
    /// `OPTIONS`
    Options,
    /// `GET`
    Get,
    /// `POST`
    Post,
    /// `PUT`
    Put,
    /// `DELETE`
    Delete,
    /// `HEAD`
    Head,
    /// `TRACE`
    Trace,
    /// `CONNECT`
    Connect,
    /// `PATCH`
    Patch,
    /// Any other method.
    Other,
}

/// The head of a request: what came on the wire before the body.
pub struct RequestHead<'a> {
    /// The protocol version.
    pub version: Version,
    /// The method.
    pub method: Method,
    /// The headers.
    pub headers: &'a HeaderMap<HeaderValue>,
}

/// A request as the validator sees it.
pub struct RequestView {
    /// The protocol version.
    pub version: Version,
    /// The method.
    pub method: Method,
    /// The header values by lower-case header name.
    pub fields: Map<Seq<char>, Seq<Seq<u8>>>,
    /// The `:protocol` pseudo-header.
    pub protocol: Option<Seq<u8>>,
    /// Whether the request carries a pending transport.
    pub upgradable: bool,
}

/// What the validator sees of a request with the given head and extensions.
pub open spec fn request_view(head: RequestHead<'_>, extensions: Extensions) -> RequestView {
    RequestView {
        version: head.version,
        method: head.method,
        fields: header_fields(*head.headers),
        protocol: protocol_extension(extensions),
        upgradable: upgrade_extension(extensions) is Some,
    }
}

} // verus!
