use serde_json::Value;
use stress_relay::protocol::{SessionError, RESPONSE_TIMEOUT_SECS};
use stress_relay::websocket::{Outbound, ReplyEvent, WebSocketClient};

fn json(text: &str) -> Value {
    serde_json::from_str(text).unwrap()
}

fn connected() -> WebSocketClient {
    let mut client = WebSocketClient::new("ws://relay.example:8080/ws").unwrap();
    client.connection_opened();
    client
}

fn answered(text: &str) -> ReplyEvent {
    ReplyEvent::Answered(json(text))
}

#[test]
fn a_new_client_is_not_connected() {
    let client = WebSocketClient::new("ws://localhost:3000").unwrap();
    assert!(!client.is_connected());
    assert_eq!(client.pending_count(), 0);
    assert_eq!(client.current_room(), None);
    assert!(client.can_send());
}

#[test]
fn an_address_that_is_no_url_is_refused() {
    let error = WebSocketClient::new("relay").unwrap_err();
    assert_eq!(error, SessionError::InvalidUrl("relative URL without a base".to_string()));
    assert_eq!(error.message(), "Invalid WebSocket URL: relative URL without a base");
    let error = WebSocketClient::new("ws://exa mple").unwrap_err();
    assert_eq!(error.message(), "Invalid WebSocket URL: invalid international domain name");
}

#[test]
fn the_judgement_on_the_address_decides() {
    assert!(WebSocketClient::with_checked_address(None).is_ok());
    let error = WebSocketClient::with_checked_address(Some("why".to_string())).unwrap_err();
    assert_eq!(error, SessionError::InvalidUrl("why".to_string()));
}

#[test]
fn a_failed_connection_keeps_its_reason() {
    let error = WebSocketClient::connection_failed("connection refused");
    assert_eq!(
        error.message(),
        "Failed to connect to WebSocket server: connection refused"
    );
}

#[test]
fn nothing_is_sent_without_a_connection() {
    let mut client = WebSocketClient::new("ws://localhost:3000").unwrap();
    assert_eq!(client.create_room(), Err(SessionError::NotConnected));
    assert_eq!(client.join_room("X"), Err(SessionError::NotConnected));
    assert_eq!(client.configure_test(json("{}")), Err(SessionError::NotConnected));
    assert_eq!(client.start_test(), Err(SessionError::NotConnected));
    assert_eq!(client.submit_results(json("{}")), Err(SessionError::NotConnected));
    assert_eq!(client.leave_room(), Err(SessionError::NotConnected));
    assert_eq!(client.send_message("ping", json("{}")), Err(SessionError::NotConnected));
    assert_eq!(
        client.send_rendered("ping", Ok("{}".to_string())),
        Err(SessionError::NotConnected)
    );
    assert_eq!(client.pending_count(), 0);
    assert_eq!(SessionError::NotConnected.message(), "WebSocket is not connected");
}

#[test]
fn each_request_has_its_frame() {
    let mut client = connected();
    let out = client.create_room().unwrap();
    assert_eq!(json(&out.text), json(r#"{"type":"create-room","payload":{}}"#));
    assert_eq!(out.ticket, 0);
    assert_eq!(out.timeout_secs, RESPONSE_TIMEOUT_SECS);
    let out = client.join_room("R\"1").unwrap();
    assert_eq!(json(&out.text), json(r#"{"type":"join-room","payload":{"roomId":"R\"1"}}"#));
    assert_eq!(out.ticket, 1);
    let out = client.configure_test(json(r#"{"url":"http://ok","concurrency":4}"#)).unwrap();
    assert_eq!(
        json(&out.text),
        json(r#"{"type":"configure-test","payload":{"config":{"url":"http://ok","concurrency":4}}}"#)
    );
    let out = client.start_test().unwrap();
    assert_eq!(json(&out.text), json(r#"{"type":"start-test","payload":{}}"#));
    let out = client.submit_results(json(r#"{"total_requests":8}"#)).unwrap();
    assert_eq!(
        json(&out.text),
        json(r#"{"type":"submit-results","payload":{"results":{"total_requests":8}}}"#)
    );
    let out = client.leave_room().unwrap();
    assert_eq!(json(&out.text), json(r#"{"type":"leave-room","payload":{}}"#));
    assert_eq!(out.ticket, 5);
    assert_eq!(client.pending_count(), 6);
}

#[test]
fn a_rendered_frame_is_sent_as_it_is() {
    let mut client = connected();
    let out = client.send_rendered("ping", Ok("anything".to_string())).unwrap();
    assert_eq!(
        out,
        Outbound { ticket: 0, text: "anything".to_string(), timeout_secs: 10 }
    );
    assert_eq!(client.pending_count(), 1);
    let error = client.send_rendered("pong", Err("too deep".to_string())).unwrap_err();
    assert_eq!(error, SessionError::Serialize("too deep".to_string()));
    assert_eq!(client.pending_count(), 1);
}

#[test]
fn creating_a_room() {
    let mut client = connected();
    let out = client.create_room().unwrap();
    let delivery = client
        .on_message(r#"{"type":"create-room-response","payload":{"success":true,"roomId":"R7"}}"#)
        .unwrap();
    assert_eq!(delivery.ticket, out.ticket);
    assert_eq!(delivery.payload, json(r#"{"success":true,"roomId":"R7"}"#));
    assert_eq!(client.pending_count(), 0);
    let room = client.room_created(delivery.ticket, ReplyEvent::Answered(delivery.payload));
    assert_eq!(room, Ok("R7".to_string()));
    assert_eq!(client.current_room(), Some("R7".to_string()));
}

#[test]
fn a_created_room_needs_a_name() {
    let mut client = connected();
    let out = client.create_room().unwrap();
    let room = client.room_created(out.ticket, answered(r#"{"success":true}"#));
    assert_eq!(room, Err(SessionError::MissingRoomId));
    assert_eq!(client.current_room(), None);
    assert_eq!(client.pending_count(), 0);
}

#[test]
fn joining_a_full_room_fails_with_the_relays_error() {
    let mut client = connected();
    let out = client.join_room("X").unwrap();
    let delivery = client
        .on_message(r#"{"type":"join-room-response","payload":{"success":false,"error":"full"}}"#)
        .unwrap();
    assert_eq!(delivery.ticket, out.ticket);
    let joined =
        client.room_joined(delivery.ticket, ReplyEvent::Answered(delivery.payload), "X", None);
    let error = joined.unwrap_err();
    assert_eq!(error, SessionError::Rejected("full".to_string()));
    assert_eq!(error.message(), "full");
    assert_eq!(client.current_room(), None);
    assert_eq!(client.pending_count(), 0);
}

#[test]
fn joining_a_room() {
    let mut client = connected();
    let out = client.join_room("asked").unwrap();
    let reply = r#"{"success":true,"roomId":"given","clientCount":2,"status":"ready"}"#;
    let info = client.room_joined(out.ticket, answered(reply), "asked", None).unwrap();
    assert_eq!(info.room_id, "given");
    assert_eq!(info.client_count, 2);
    assert_eq!(info.status, "ready");
    assert_eq!(info.config, None);
    assert_eq!(client.current_room(), Some("asked".to_string()));
    assert_eq!(client.pending_count(), 0);
}

#[test]
fn acknowledgements() {
    let mut client = connected();
    let out = client.start_test().unwrap();
    assert_eq!(client.acknowledged(out.ticket, answered(r#"{"success":true}"#)), Ok(()));
    let out = client.configure_test(json("{}")).unwrap();
    assert_eq!(
        client.acknowledged(out.ticket, answered(r#"{"success":false,"error":"not owner"}"#)),
        Err(SessionError::Rejected("not owner".to_string()))
    );
    let out = client.submit_results(json("{}")).unwrap();
    assert_eq!(
        client.acknowledged(out.ticket, answered(r#"{"done":true}"#)),
        Err(SessionError::Rejected("Unknown error".to_string()))
    );
    assert_eq!(client.pending_count(), 0);
}

#[test]
fn leaving_clears_the_room() {
    let mut client = connected();
    let out = client.create_room().unwrap();
    client.room_created(out.ticket, answered(r#"{"success":true,"roomId":"R7"}"#)).unwrap();
    let out = client.leave_room().unwrap();
    assert_eq!(
        client.room_left(out.ticket, answered(r#"{"success":false,"error":"busy"}"#)),
        Err(SessionError::Rejected("busy".to_string()))
    );
    assert_eq!(client.current_room(), Some("R7".to_string()));
    let out = client.leave_room().unwrap();
    assert_eq!(client.room_left(out.ticket, ReplyEvent::TimedOut), Err(SessionError::Timeout));
    assert_eq!(client.current_room(), Some("R7".to_string()));
    let out = client.leave_room().unwrap();
    assert_eq!(client.room_left(out.ticket, answered(r#"{"success":true}"#)), Ok(()));
    assert_eq!(client.current_room(), None);
}

#[test]
fn a_timeout_leaves_the_table_as_it_was() {
    let mut client = connected();
    client.create_room().unwrap();
    let before = client.pending_count();
    let out = client.join_room("X").unwrap();
    assert_eq!(client.pending_count(), before + 1);
    let result = client.await_response(out.ticket, ReplyEvent::TimedOut);
    assert_eq!(result, Err(SessionError::Timeout));
    assert_eq!(client.pending_count(), before);
    assert!(client.is_connected());
    let late = client
        .on_message(r#"{"type":"join-room-response","payload":{"success":true,"roomId":"X"}}"#);
    assert!(late.is_none());
    assert_eq!(client.pending_count(), before);
}

#[test]
fn a_lost_connection_fails_every_waiting_request() {
    let mut client = connected();
    let a = client.create_room().unwrap();
    let b = client.join_room("X").unwrap();
    let c = client.start_test().unwrap();
    assert_eq!(client.pending_count(), 3);
    let tickets = client.connection_lost();
    assert_eq!(tickets, vec![a.ticket, b.ticket, c.ticket]);
    assert!(!client.is_connected());
    assert_eq!(client.pending_count(), 0);
    for ticket in tickets {
        assert_eq!(
            client.await_response(ticket, ReplyEvent::ConnectionLost),
            Err(SessionError::ConnectionLost)
        );
    }
    assert_eq!(client.create_room(), Err(SessionError::NotConnected));
    assert_eq!(client.connection_lost(), Vec::<u64>::new());
}

#[test]
fn a_second_request_of_a_type_takes_the_place_of_the_first() {
    let mut client = connected();
    let first = client.join_room("A").unwrap();
    let second = client.join_room("B").unwrap();
    assert_eq!(client.pending_count(), 1);
    let delivery = client
        .on_message(r#"{"type":"join-room-response","payload":{"success":true,"roomId":"B"}}"#)
        .unwrap();
    assert_eq!(delivery.ticket, second.ticket);
    assert_eq!(
        client.await_response(first.ticket, ReplyEvent::TimedOut),
        Err(SessionError::Timeout)
    );
    assert_eq!(client.pending_count(), 0);
}

#[test]
fn frames_that_find_no_request_are_dropped() {
    let mut client = connected();
    client.create_room().unwrap();
    assert!(client.on_message("not json").is_none());
    assert!(client.on_message("").is_none());
    assert!(client.on_message(r#"{"type":"create-room-response"}"#).is_none());
    assert!(client.on_message(r#"{"type":"create-room","payload":{}}"#).is_none());
    assert!(client.on_message(r#"{"type":"join-room-response","payload":{}}"#).is_none());
    assert!(client.on_message(r#"{"type":"test-started","payload":{}}"#).is_none());
    assert!(client
        .on_message(r#"{"type":"create-room-response-response","payload":{}}"#)
        .is_none());
    assert_eq!(client.pending_count(), 1);
    assert!(client.route_frame(&json(r#"{"type":"create-room-response","payload":7}"#)).is_some());
    assert_eq!(client.pending_count(), 0);
    assert!(client.route_frame(&json(r#"{"type":"create-room-response","payload":7}"#)).is_none());
}

#[test]
fn the_payload_of_a_successful_reply_is_handed_on() {
    let mut client = connected();
    let out = client.send_message("ping", json(r#"{"n":1}"#)).unwrap();
    assert_eq!(json(&out.text), json(r#"{"type":"ping","payload":{"n":1}}"#));
    let reply = client.await_response(out.ticket, answered(r#"{"success":true,"n":2}"#));
    assert_eq!(reply, Ok(json(r#"{"success":true,"n":2}"#)));
    assert_eq!(client.pending_count(), 0);
}
