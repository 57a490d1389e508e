use kiosk_feed::connection::{Action, ConnectionState, Event, FeedConnection};
use kiosk_feed::decoder::{DecodeError, DecodeStage, DecodedMessage};
use kiosk_feed::feed::{InboundItem, Notice, RefreshRequest};
use kiosk_feed::session::{Session, SessionResolver};
use std::io::Write;

const SERVER: &str = "https://feed.example";

fn blob_of(text: &str) -> String {
    let mut encoder = flate2::write::GzEncoder::new(Vec::new(), flate2::Compression::default());
    encoder.write_all(text.as_bytes()).unwrap();
    let bytes = encoder.finish().unwrap();
    base64::Engine::encode(&base64::engine::general_purpose::STANDARD, bytes)
}

fn resolved_session() -> Session {
    SessionResolver::extract("var sid = 'abc123';var prm = 'rapidkl';var no_route = '300';")
}

fn handshake() -> Action {
    Action::Emit {
        event: "onFts-reload".to_string(),
        payload: RefreshRequest {
            sid: "abc123".to_string(),
            uid: String::new(),
            provider: "rapidkl".to_string(),
            route: "300".to_string(),
        },
    }
}

fn connecting() -> FeedConnection {
    let mut conn = FeedConnection::new(SERVER.to_string(), resolved_session());
    conn.step(Event::ConnectRequested);
    conn
}

fn connected() -> FeedConnection {
    let mut conn = connecting();
    conn.step(Event::Opened);
    conn
}

fn terminated() -> FeedConnection {
    let mut conn = connected();
    conn.step(Event::Closed);
    conn
}

fn data(items: Vec<InboundItem>) -> Event {
    Event::Inbound { name: "onFts-client".to_string(), payload: items }
}

#[test]
fn new_connection_is_disconnected() {
    let conn = FeedConnection::new(SERVER.to_string(), resolved_session());
    assert_eq!(conn.state(), ConnectionState::Disconnected);
    assert_eq!(conn.server_url(), SERVER);
    assert_eq!(conn.session(), &resolved_session());
}

#[test]
fn connect_request_opens_the_transport() {
    let mut conn = FeedConnection::new(SERVER.to_string(), resolved_session());
    assert_eq!(
        conn.step(Event::ConnectRequested),
        vec![Action::Open(SERVER.to_string())]
    );
    assert_eq!(conn.state(), ConnectionState::Connecting);
}

#[test]
fn second_connect_request_is_ignored() {
    let mut conn = connecting();
    assert_eq!(conn.step(Event::ConnectRequested), vec![]);
    assert_eq!(conn.state(), ConnectionState::Connecting);
    let mut conn = connected();
    assert_eq!(conn.step(Event::ConnectRequested), vec![]);
    assert_eq!(conn.state(), ConnectionState::Connected);
}

#[test]
fn end_to_end_handshake_then_structured_message() {
    let mut conn = FeedConnection::new(SERVER.to_string(), resolved_session());
    conn.step(Event::ConnectRequested);
    assert_eq!(conn.step(Event::Opened), vec![handshake()]);
    assert_eq!(conn.state(), ConnectionState::Connected);
    let blob = blob_of("{\"lat\":1,\"lon\":2}");
    assert_eq!(
        conn.handle_event("onFts-client", vec![InboundItem::Text(blob)]),
        vec![Action::Report(Notice::Message(DecodedMessage::Structured(
            "{\"lat\":1,\"lon\":2}".to_string()
        )))]
    );
    assert_eq!(conn.state(), ConnectionState::Connected);
}

#[test]
fn end_to_end_binary_item_gives_its_length_only() {
    let mut conn = connected();
    assert_eq!(
        conn.handle_event("onFts-client", vec![InboundItem::Binary(vec![7u8; 48])]),
        vec![Action::Report(Notice::BinaryLength(48))]
    );
    assert_eq!(conn.state(), ConnectionState::Connected);
}

#[test]
fn connect_event_of_the_backend_also_enters_connected() {
    let mut conn = connecting();
    assert_eq!(conn.handle_event("connect", vec![]), vec![handshake()]);
    assert_eq!(conn.state(), ConnectionState::Connected);
}

#[test]
fn handshake_is_emitted_once() {
    let mut conn = connecting();
    assert_eq!(conn.step(Event::Opened), vec![handshake()]);
    assert_eq!(conn.handle_event("connect", vec![]), vec![]);
    assert_eq!(conn.step(Event::Opened), vec![]);
    assert_eq!(conn.state(), ConnectionState::Connected);
}

#[test]
fn subscription_carries_the_session_and_an_empty_uid() {
    let conn = FeedConnection::new(
        SERVER.to_string(),
        Session { sid: String::new(), provider: "p".to_string(), route: "r".to_string() },
    );
    assert_eq!(
        conn.subscription(),
        Action::Emit {
            event: "onFts-reload".to_string(),
            payload: RefreshRequest {
                sid: String::new(),
                uid: String::new(),
                provider: "p".to_string(),
                route: "r".to_string(),
            },
        }
    );
    assert_eq!(Action::subscribe(&resolved_session()), handshake());
    assert_eq!(
        RefreshRequest::for_session(&resolved_session()),
        RefreshRequest {
            sid: "abc123".to_string(),
            uid: String::new(),
            provider: "rapidkl".to_string(),
            route: "300".to_string(),
        }
    );
}

#[test]
fn opened_before_a_connect_request_is_ignored() {
    let mut conn = FeedConnection::new(SERVER.to_string(), resolved_session());
    assert_eq!(conn.step(Event::Opened), vec![]);
    assert_eq!(conn.handle_event("connect", vec![]), vec![]);
    assert_eq!(conn.state(), ConnectionState::Disconnected);
}

#[test]
fn failed_connect_is_reported_and_ends_the_connection() {
    let mut conn = connecting();
    assert_eq!(
        conn.step(Event::ConnectFailed("network unreachable".to_string())),
        vec![Action::Report(Notice::ConnectError("network unreachable".to_string()))]
    );
    assert_eq!(conn.state(), ConnectionState::Terminated);
}

#[test]
fn failed_connect_out_of_turn_is_ignored() {
    let mut conn = connected();
    assert_eq!(conn.step(Event::ConnectFailed("late".to_string())), vec![]);
    assert_eq!(conn.state(), ConnectionState::Connected);
    let mut conn = FeedConnection::new(SERVER.to_string(), resolved_session());
    assert_eq!(conn.step(Event::ConnectFailed("early".to_string())), vec![]);
    assert_eq!(conn.state(), ConnectionState::Disconnected);
}

#[test]
fn items_are_reported_in_order_and_each_on_its_own() {
    let mut conn = connected();
    let good = blob_of("[1,2,3]");
    let plain = blob_of("no json here");
    let items = vec![
        InboundItem::Text(good),
        InboundItem::Text("###".to_string()),
        InboundItem::Binary(vec![1, 2, 3]),
        InboundItem::Other("{\"k\":1}".to_string()),
        InboundItem::Text("aGVsbG8=".to_string()),
        InboundItem::Text(plain),
        InboundItem::Binary(vec![]),
    ];
    assert_eq!(
        conn.step(data(items)),
        vec![
            Action::Report(Notice::Message(DecodedMessage::Structured("[1,2,3]".to_string()))),
            Action::Report(Notice::DecodeFailed {
                error: DecodeError { stage: DecodeStage::Base64 },
                blob: "###".to_string(),
            }),
            Action::Report(Notice::BinaryLength(3)),
            Action::Report(Notice::Unrecognized("{\"k\":1}".to_string())),
            Action::Report(Notice::DecodeFailed {
                error: DecodeError { stage: DecodeStage::Gzip },
                blob: "aGVsbG8=".to_string(),
            }),
            Action::Report(Notice::Message(DecodedMessage::Raw("no json here".to_string()))),
            Action::Report(Notice::BinaryLength(0)),
        ]
    );
    assert_eq!(conn.state(), ConnectionState::Connected);
}

#[test]
fn data_event_with_no_item_reports_nothing() {
    let mut conn = connected();
    assert_eq!(conn.step(data(vec![])), vec![]);
    assert_eq!(conn.state(), ConnectionState::Connected);
}

#[test]
fn data_before_the_connection_stands_is_dropped() {
    let mut conn = connecting();
    assert_eq!(conn.step(data(vec![InboundItem::Binary(vec![0; 4])])), vec![]);
    assert_eq!(conn.state(), ConnectionState::Connecting);
    let mut conn = FeedConnection::new(SERVER.to_string(), resolved_session());
    assert_eq!(conn.step(data(vec![InboundItem::Binary(vec![0; 4])])), vec![]);
    assert_eq!(conn.state(), ConnectionState::Disconnected);
}

#[test]
fn error_event_is_reported_and_changes_nothing() {
    let detail = vec![InboundItem::Other("{\"code\":500}".to_string())];
    let mut conn = connected();
    assert_eq!(
        conn.handle_event("error", detail.clone()),
        vec![Action::Report(Notice::ServerError(detail.clone()))]
    );
    assert_eq!(conn.state(), ConnectionState::Connected);
    let mut conn = connecting();
    assert_eq!(
        conn.handle_event("error", detail.clone()),
        vec![Action::Report(Notice::ServerError(detail))]
    );
    assert_eq!(conn.state(), ConnectionState::Connecting);
}

#[test]
fn error_event_without_detail_is_still_one_report() {
    let mut conn = connected();
    assert_eq!(
        conn.handle_event("error", vec![]),
        vec![Action::Report(Notice::ServerError(vec![]))]
    );
}

#[test]
fn unknown_event_name_is_ignored() {
    let mut conn = connected();
    assert_eq!(
        conn.handle_event("onFts-other", vec![InboundItem::Binary(vec![1])]),
        vec![]
    );
    assert_eq!(conn.handle_event("", vec![]), vec![]);
    assert_eq!(conn.handle_event("ONFTS-CLIENT", vec![InboundItem::Binary(vec![1])]), vec![]);
    assert_eq!(conn.state(), ConnectionState::Connected);
}

#[test]
fn failed_emission_is_reported_and_ends_the_connection() {
    let mut conn = connected();
    assert_eq!(
        conn.step(Event::EmitFailed("broken pipe".to_string())),
        vec![Action::Report(Notice::EmitError("broken pipe".to_string()))]
    );
    assert_eq!(conn.state(), ConnectionState::Terminated);
    assert_eq!(conn.step(Event::EmitFailed("again".to_string())), vec![]);
    assert_eq!(conn.state(), ConnectionState::Terminated);
}

#[test]
fn close_ends_the_connection_silently() {
    let mut conn = connected();
    assert_eq!(conn.step(Event::Closed), vec![]);
    assert_eq!(conn.state(), ConnectionState::Terminated);
    let mut conn = connecting();
    assert_eq!(conn.step(Event::Closed), vec![]);
    assert_eq!(conn.state(), ConnectionState::Terminated);
    let mut conn = FeedConnection::new(SERVER.to_string(), resolved_session());
    assert_eq!(conn.step(Event::Closed), vec![]);
    assert_eq!(conn.state(), ConnectionState::Disconnected);
}

#[test]
fn terminated_answers_nothing_and_stays() {
    let events = vec![
        Event::ConnectRequested,
        Event::Opened,
        Event::ConnectFailed("x".to_string()),
        data(vec![InboundItem::Binary(vec![0; 48])]),
        Event::Inbound { name: "error".to_string(), payload: vec![] },
        Event::Inbound { name: "connect".to_string(), payload: vec![] },
        Event::EmitFailed("y".to_string()),
        Event::Closed,
    ];
    let mut conn = terminated();
    for event in events {
        assert_eq!(conn.step(event), vec![]);
        assert_eq!(conn.state(), ConnectionState::Terminated);
    }
}

#[test]
fn session_and_server_stay_as_given() {
    let mut conn = connected();
    conn.step(data(vec![InboundItem::Text("x".to_string())]));
    conn.step(Event::EmitFailed("gone".to_string()));
    assert_eq!(conn.session(), &resolved_session());
    assert_eq!(conn.server_url(), SERVER);
}

#[test]
fn notice_for_item_by_shape() {
    assert_eq!(
        Notice::for_item(&InboundItem::Binary(vec![0u8; 48])),
        Notice::BinaryLength(48)
    );
    assert_eq!(
        Notice::for_item(&InboundItem::Other("null".to_string())),
        Notice::Unrecognized("null".to_string())
    );
    assert_eq!(
        Notice::for_item(&InboundItem::Text(blob_of("{\"a\":[]}"))),
        Notice::Message(DecodedMessage::Structured("{\"a\":[]}".to_string()))
    );
}

#[test]
fn notice_from_outcome() {
    assert_eq!(
        Notice::from_outcome(Ok(DecodedMessage::Raw("t".to_string())), "blob"),
        Notice::Message(DecodedMessage::Raw("t".to_string()))
    );
    assert_eq!(
        Notice::from_outcome(Err(DecodeError { stage: DecodeStage::Gzip }), "blob"),
        Notice::DecodeFailed { error: DecodeError { stage: DecodeStage::Gzip }, blob: "blob".to_string() }
    );
}
