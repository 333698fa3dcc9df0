use async_tungstenite::tungstenite::error::Error as WsError;
use gremlin_client::GremlinError;
use gremlin_client::error::SendFault;
use gremlin_client::error::WsFault;
use gremlin_client::error::classify_send_error;
use gremlin_client::error::classify_ws_error;
use gremlin_client::error::send_fault_of;
use gremlin_client::error::wrap_ws_error;
use gremlin_client::error::ws_fault_of;

fn disconnected_send_error() -> futures::channel::mpsc::SendError {
    let (mut tx, rx) = futures::channel::mpsc::channel::<u32>(1);
    drop(rx);
    tx.try_send(1).unwrap_err().into_send_error()
}

#[test]
fn already_closed_keeps_its_recoverable_case() {
    let e = classify_ws_error(&WsError::AlreadyClosed);
    assert_eq!(e, GremlinError::WebSocketAsync(WsFault::AlreadyClosed));
}

#[test]
fn connection_closed_keeps_its_recoverable_case() {
    let e = classify_ws_error(&WsError::ConnectionClosed);
    assert_eq!(e, GremlinError::WebSocketAsync(WsFault::ConnectionClosed));
}

#[test]
fn other_transport_fault_collapses_to_opaque_message() {
    let raw = WsError::Utf8(String::from("bad byte"));
    let text = format!("{}", raw);
    let e = classify_ws_error(&raw);
    match e {
        GremlinError::Generic(msg) => {
            assert_eq!(msg, format!("Error from ws {}", text));
            assert!(msg.contains(&text));
        }
        other => panic!("expected the opaque case, got {:?}", other),
    }
}

#[test]
fn classification_reads_the_raw_fault_faithfully() {
    assert_eq!(ws_fault_of(&WsError::AlreadyClosed), WsFault::AlreadyClosed);
    assert_eq!(
        ws_fault_of(&WsError::ConnectionClosed),
        WsFault::ConnectionClosed
    );
    match ws_fault_of(&WsError::AttackAttempt) {
        WsFault::Other(msg) => assert_eq!(msg, format!("{}", WsError::AttackAttempt)),
        other => panic!("expected the textual case, got {:?}", other),
    }
}

#[test]
fn by_value_wrap_preserves_the_transport_case() {
    let e = wrap_ws_error(WsError::AlreadyClosed);
    assert_eq!(e, GremlinError::WebSocketAsync(WsFault::AlreadyClosed));
    let e2 = wrap_ws_error(WsError::Utf8(String::from("bad")));
    match e2 {
        GremlinError::WebSocketAsync(WsFault::Other(_)) => {}
        other => panic!("expected a wrapped transport fault, got {:?}", other),
    }
}

#[test]
fn channel_send_fault_is_wrapped_unchanged() {
    let raw = disconnected_send_error();
    let fault = send_fault_of(&raw);
    assert_eq!(fault, SendFault { disconnected: true, full: false });
    let e = classify_send_error(&raw);
    assert_eq!(e, GremlinError::ChannelSend(fault));
}

#[test]
fn classification_is_pure() {
    let first = classify_ws_error(&WsError::AlreadyClosed);
    let second = classify_ws_error(&WsError::AlreadyClosed);
    assert_eq!(first, second);
    let raw = WsError::Utf8(String::from("bad byte"));
    assert_eq!(classify_ws_error(&raw), classify_ws_error(&raw));
    let send = disconnected_send_error();
    assert_eq!(classify_send_error(&send), classify_send_error(&send));
    assert_eq!(
        GremlinError::classify_ws_fault(&WsFault::Other(String::from("x"))),
        GremlinError::classify_ws_fault(&WsFault::Other(String::from("x"))),
    );
}
