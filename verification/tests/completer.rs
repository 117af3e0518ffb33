use axum::http::header::{HeaderMap, HeaderName, HeaderValue};
use axum::http::{Extensions, Request};
use axum::Error;
use hyper::ext::Protocol;
use raw_socket_upgrade::{
    sign, DefaultOnFailedUpgrade, Handoff, HandoffAction, Method, OnFailedUpgrade,
    RawSocketUpgrade, RequestHead, Version,
};
use std::sync::mpsc::{channel, Sender};

fn headers(entries: &[(&str, &[u8])]) -> HeaderMap {
    let mut map = HeaderMap::new();
    for (name, value) in entries {
        map.append(
            HeaderName::from_bytes(name.as_bytes()).unwrap(),
            HeaderValue::from_bytes(value).unwrap(),
        );
    }
    map
}

fn accepted_http11(key: &[u8]) -> RawSocketUpgrade<DefaultOnFailedUpgrade> {
    let map = headers(&[
        ("Connection", b"Upgrade"),
        ("Upgrade", b"websocket"),
        ("Sec-WebSocket-Key", key),
        ("Sec-WebSocket-Version", b"13"),
        ("Sec-WebSocket-Protocol", b"chat"),
    ]);
    let head = RequestHead { version: Version::Http11, method: Method::Get, headers: &map };
    let mut extensions = Extensions::new();
    extensions.insert(hyper::upgrade::on(&mut Request::new(())));
    RawSocketUpgrade::from_request_parts(&head, &mut extensions, true).unwrap()
}

fn accepted_http2() -> RawSocketUpgrade<DefaultOnFailedUpgrade> {
    let map = headers(&[("Sec-WebSocket-Version", b"13")]);
    let head = RequestHead { version: Version::Http2, method: Method::Connect, headers: &map };
    let mut extensions = Extensions::new();
    extensions.insert(hyper::upgrade::on(&mut Request::new(())));
    extensions.insert(Protocol::from_static("websocket"));
    RawSocketUpgrade::from_request_parts(&head, &mut extensions, true).unwrap()
}

fn failure(text: &str) -> Error {
    Error::new(std::io::Error::other(text.to_owned()))
}

struct Report(Sender<String>);

impl OnFailedUpgrade for Report {
    fn call(self, error: Error) {
        self.0.send(error.to_string()).unwrap();
    }
}

#[test]
fn http11_response_switches_protocols() {
    let finished = accepted_http11(b"dGhlIHNhbXBsZSBub25jZQ==").on_upgrade(());
    let response = finished.response;
    assert_eq!(response.status, 101);
    assert_eq!(
        response.headers,
        vec![
            ("Connection".to_owned(), b"Upgrade".to_vec()),
            ("Upgrade".to_owned(), b"websocket".to_vec()),
            ("Sec-WebSocket-Accept".to_owned(), b"s3pPLMBiTxaQ9kYGzzhZRbK+xOo=".to_vec()),
        ]
    );
    assert!(response.body.is_empty());
}

#[test]
fn http11_response_signs_the_key_of_the_request() {
    for key in [&b"x3JJHMbDL1EzLkh9GBhXDw=="[..], b"", b"not base64 at all"] {
        let response = accepted_http11(key).on_upgrade(()).response;
        assert_eq!(response.status, 101);
        assert_eq!(response.headers.len(), 3);
        assert_eq!(response.headers[2].0, "Sec-WebSocket-Accept");
        assert_eq!(response.headers[2].1, sign(key));
        assert!(response.body.is_empty());
    }
}

#[test]
fn http2_response_has_no_upgrade_headers() {
    let response = accepted_http2().on_upgrade(()).response;
    assert_eq!(response.status, 200);
    assert!(response.headers.is_empty());
    assert!(response.body.is_empty());
}

#[test]
fn subprotocols_are_not_echoed() {
    let upgrade = accepted_http11(b"dGhlIHNhbXBsZSBub25jZQ==");
    assert_eq!(upgrade.sec_websocket_protocol(), Some(&b"chat"[..]));
    let response = upgrade.on_upgrade(()).response;
    assert!(response
        .headers
        .iter()
        .all(|(name, _)| !name.eq_ignore_ascii_case("Sec-WebSocket-Protocol")));
}

#[test]
fn on_failed_upgrade_replaces_only_the_policy() {
    let (sender, receiver) = channel();
    let upgrade = accepted_http11(b"dGhlIHNhbXBsZSBub25jZQ==").on_failed_upgrade(Report(sender));
    assert_eq!(upgrade.sec_websocket_key(), Some(&b"dGhlIHNhbXBsZSBub25jZQ=="[..]));
    assert_eq!(upgrade.sec_websocket_protocol(), Some(&b"chat"[..]));
    let finished = upgrade.on_upgrade(7u8);
    assert_eq!(finished.response.status, 101);
    assert_eq!(finished.handoff.callback, 7u8);
    finished.handoff.on_failed_upgrade.call(failure("gone"));
    assert_eq!(receiver.try_recv().unwrap(), "gone");
    assert!(receiver.try_recv().is_err());
}

#[test]
fn on_upgrade_hands_the_callback_on() {
    let finished = accepted_http2().on_upgrade("continuation");
    assert_eq!(finished.handoff.callback, "continuation");
}

#[test]
fn settled_transport_goes_to_the_continuation() {
    let (sender, receiver) = channel();
    let handoff = Handoff { callback: "continuation", on_failed_upgrade: Report(sender) };
    match handoff.settle(Ok::<u32, Error>(42)) {
        HandoffAction::Deliver { callback, transport } => {
            assert_eq!(callback, "continuation");
            assert_eq!(transport, 42);
        }
        HandoffAction::Fail { .. } => panic!("a transport that resolved is delivered"),
    }
    // The policy went with the handoff and was not called.
    assert!(receiver.try_recv().is_err());
}

#[test]
fn failed_transport_goes_to_the_policy() {
    let (sender, receiver) = channel();
    let handoff = Handoff { callback: "continuation", on_failed_upgrade: Report(sender) };
    match handoff.settle(Err::<u32, Error>(failure("connection closed"))) {
        HandoffAction::Deliver { .. } => panic!("a transport that failed is not delivered"),
        HandoffAction::Fail { on_failed_upgrade, error } => {
            assert_eq!(error.to_string(), "connection closed");
            on_failed_upgrade.call(error);
        }
    }
    assert_eq!(receiver.try_recv().unwrap(), "connection closed");
    assert!(receiver.try_recv().is_err());
}

#[test]
fn delivery_runs_the_continuation_once_and_no_policy() {
    let (failures, failed) = channel();
    let (runs, ran) = channel();
    let handoff = Handoff {
        callback: move |transport: u32| {
            runs.send(transport).unwrap();
            format!("serving {transport}")
        },
        on_failed_upgrade: Report(failures),
    };
    let started = handoff.settle(Ok::<u32, Error>(42)).perform();
    assert_eq!(started, Some("serving 42".to_owned()));
    assert_eq!(ran.try_recv().unwrap(), 42);
    assert!(ran.try_recv().is_err());
    assert!(failed.try_recv().is_err());
}

#[test]
fn failure_calls_the_policy_once_and_no_continuation() {
    let (failures, failed) = channel();
    let (runs, ran) = channel();
    let handoff = Handoff {
        callback: move |transport: u32| {
            runs.send(transport).unwrap();
            format!("serving {transport}")
        },
        on_failed_upgrade: Report(failures),
    };
    let started = handoff.settle(Err::<u32, Error>(failure("connection closed"))).perform();
    assert_eq!(started, None);
    assert_eq!(failed.try_recv().unwrap(), "connection closed");
    assert!(failed.try_recv().is_err());
    assert!(ran.try_recv().is_err());
}

#[test]
fn default_policy_discards_the_error() {
    let finished = accepted_http2().on_upgrade(|transport: u8| transport);
    let started = finished.handoff.settle(Err::<u8, Error>(failure("ignored"))).perform();
    assert_eq!(started, None);
}

#[test]
fn default_policy_is_not_in_the_way_of_delivery() {
    let finished = accepted_http2().on_upgrade(|transport: u8| transport + 1);
    let started = finished.handoff.settle(Ok::<u8, Error>(1)).perform();
    assert_eq!(started, Some(2));
}

#[test]
fn a_closure_is_a_policy() {
    let (sender, receiver) = channel();
    let upgrade = accepted_http2().on_failed_upgrade(move |error: Error| {
        sender.send(error.to_string()).unwrap();
    });
    let finished = upgrade.on_upgrade(|_transport: ()| ());
    let started = finished.handoff.settle(Err::<(), Error>(failure("reset"))).perform();
    assert_eq!(started, None);
    assert_eq!(receiver.try_recv().unwrap(), "reset");
    assert!(receiver.try_recv().is_err());
}

#[test]
fn transport_that_never_switches_goes_to_the_policy() {
    let (failures, failed) = channel();
    let (runs, ran) = channel();
    let upgrade = accepted_http11(b"dGhlIHNhbXBsZSBub25jZQ==").on_failed_upgrade(Report(failures));
    let finished = upgrade.on_upgrade(move |_transport: hyper::upgrade::Upgraded| {
        runs.send(()).unwrap();
    });
    assert_eq!(finished.response.status, 101);

    // The request of the handshake was never served by a connection, so its
    // pending transport resolves to an error.
    let runtime = tokio::runtime::Builder::new_current_thread().build().unwrap();
    let outcome = runtime.block_on(finished.on_upgrade).map_err(Error::new);
    assert!(outcome.is_err());

    let started = finished.handoff.settle(outcome).perform();
    assert!(started.is_none());
    assert!(failed.try_recv().is_ok());
    assert!(failed.try_recv().is_err());
    assert!(ran.try_recv().is_err());
}
