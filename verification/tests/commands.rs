use stress_relay::commands::{ConnectResponse, RoomResponse, TestResponse};
use stress_relay::config::EngineError;
use stress_relay::protocol::{RoomInfo, SessionError};
use stress_relay::stats::{Outcome, TestResult};

#[test]
fn plain_answers() {
    assert_eq!(
        ConnectResponse::from_result(&Ok(())),
        ConnectResponse { success: true, error: None }
    );
    assert_eq!(
        ConnectResponse::from_result(&Err(SessionError::Timeout)),
        ConnectResponse { success: false, error: Some("Timeout waiting for response".to_string()) }
    );
    assert_eq!(
        ConnectResponse::not_connected(),
        ConnectResponse { success: false, error: Some("Not connected to server".to_string()) }
    );
}

#[test]
fn answers_about_rooms() {
    assert_eq!(
        RoomResponse::created(Ok("R1".to_string())),
        RoomResponse {
            success: true,
            room_id: Some("R1".to_string()),
            error: None,
            client_count: Some(1),
            status: Some("waiting".to_string()),
        }
    );
    assert_eq!(
        RoomResponse::created(Err(SessionError::MissingRoomId)),
        RoomResponse {
            success: false,
            room_id: None,
            error: Some("No room ID in response".to_string()),
            client_count: None,
            status: None,
        }
    );
    let info = RoomInfo {
        room_id: "R2".to_string(),
        client_count: 5,
        status: "running".to_string(),
        config: None,
    };
    assert_eq!(
        RoomResponse::joined(Ok(info)),
        RoomResponse {
            success: true,
            room_id: Some("R2".to_string()),
            error: None,
            client_count: Some(5),
            status: Some("running".to_string()),
        }
    );
    assert_eq!(
        RoomResponse::joined(Err(SessionError::Rejected("full".to_string()))),
        RoomResponse {
            success: false,
            room_id: None,
            error: Some("full".to_string()),
            client_count: None,
            status: None,
        }
    );
    assert_eq!(
        RoomResponse::not_connected().error,
        Some("Not connected to server".to_string())
    );
    assert!(!RoomResponse::not_connected().success);
}

#[test]
fn answers_to_a_run() {
    let outcomes = vec![Outcome::Response { status: 200, elapsed_micros: 10 }];
    let result = TestResult::from_outcomes(&outcomes, 100, "id".to_string(), 1);
    let response = TestResponse::from_result(Ok(result));
    assert!(response.success);
    assert_eq!(response.error, None);
    assert_eq!(response.result.unwrap().total_requests, 1);
    let response = TestResponse::from_result(Err(EngineError::task_failed("gone")));
    assert!(!response.success);
    assert_eq!(response.error, Some("Task failed: gone".to_string()));
    assert!(response.result.is_none());
}
