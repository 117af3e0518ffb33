//! Negotiation of an HTTP connection upgrade to the WebSocket protocol, with
//! the raw transport handed to the caller's own code.

pub mod accept;
pub mod ascii;
pub mod extensions;
pub mod failure;
pub mod handoff;
pub mod headers;
pub mod laws;
pub mod names;
pub mod rejection;
pub mod request;
pub mod response;
pub mod rules;
pub mod upgrade;

pub use accept::sign;
pub use failure::{DefaultOnFailedUpgrade, OnFailedUpgrade};
pub use handoff::{Handoff, HandoffAction};
pub use rejection::Rejection;
pub use request::{Method, RequestHead, Version};
pub use response::Response;
pub use upgrade::{Finished, RawSocketUpgrade};
