//! What the operations of the tool answer to the user interface: a flag for
//! success, and either what was asked for or the message of the error.

use crate::config::EngineError;
use crate::protocol::{RoomInfo, SessionError};
use crate::stats::{Report, TestResult};
use vstd::prelude::*;

verus! {

/// The characters of an optional text.
pub open spec fn text_view(text: Option<String>) -> Option<Seq<char>> {
    match text {
        Some(t) => Some(t@),
        None => None,
    }
}

/// The answer to an operation that yields nothing but its success.
#[derive(Clone, Debug, PartialEq, Eq)]
pub struct ConnectResponse {
    pub success: bool,
    pub error: Option<String>,
}

/// The answer to an operation on a room.
#[derive(Clone, Debug, PartialEq, Eq)]
pub struct RoomResponse {
    pub success: bool,
    pub room_id: Option<String>,
    pub error: Option<String>,
    pub client_count: Option<u32>,
    pub status: Option<String>,
}

/// The answer to a local run.
#[derive(Debug)]
pub struct TestResponse {
    pub success: bool,
    pub error: Option<String>,
    pub result: Option<TestResult>,
}

impl ConnectResponse {
    /// Whether the response reports success.
    pub open spec fn is_success(self) -> bool {
        self.success && self.error is None
    }

    /// Whether the response reports the failure with `message`.
    pub open spec fn is_failure(self, message: Seq<char>) -> bool {
        !self.success && text_view(self.error) == Some(message)
    }

    /// The answer to an operation of the session: success, or the message
    /// of its error.
    pub fn from_result(outcome: &Result<(), SessionError>) -> (r: ConnectResponse)
        ensures
            match outcome {
                Ok(_) => r.is_success(),
                Err(e) => r.is_failure(e@.message()),
            },
    {
        match outcome {
            Ok(_) => ConnectResponse { success: true, error: None },
            Err(e) => ConnectResponse { success: false, error: Some(e.message()) },
        }
    }

    /// The answer to an operation that found no session at all.
    pub fn not_connected() -> (r: ConnectResponse)
        ensures
            r.is_failure("Not connected to server"@),
    {
        ConnectResponse { success: false, error: Some("Not connected to server".to_owned()) }
    }
}

impl RoomResponse {
    /// Whether the response reports the failure with `message`, and nothing
    /// of a room.
    pub open spec fn is_failure(self, message: Seq<char>) -> bool {
        &&& !self.success
        &&& text_view(self.error) == Some(message)
        &&& self.room_id is None
        &&& self.client_count is None
        &&& self.status is None
    }

    /// Whether the response reports success and the given room.
    pub open spec fn is_room(self, room_id: Seq<char>, client_count: u32, status: Seq<char>) -> bool {
        &&& self.success
        &&& self.error is None
        &&& text_view(self.room_id) == Some(room_id)
        &&& self.client_count == Some(client_count)
        &&& text_view(self.status) == Some(status)
    }

    fn failed(message: String) -> (r: RoomResponse)
        ensures
            r.is_failure(message@),
    {
        RoomResponse {
            success: false,
            room_id: None,
            error: Some(message),
            client_count: None,
            status: None,
        }
    }

    /// The answer to the creation of a room: the new room, in which the
    /// agent is alone and waiting, or the message of the error.
    pub fn created(outcome: Result<String, SessionError>) -> (r: RoomResponse)
        ensures
            match outcome {
                Ok(room_id) => r.is_room(room_id@, 1, "waiting"@),
                Err(e) => r.is_failure(e@.message()),
            },
    {
        match outcome {
            Ok(room_id) => RoomResponse {
                success: true,
                room_id: Some(room_id),
                error: None,
                client_count: Some(1),
                status: Some("waiting".to_owned()),
            },
            Err(e) => RoomResponse::failed(e.message()),
        }
    }

    /// The answer to joining a room: what the relay reports of the room, or
    /// the message of the error.
    pub fn joined(outcome: Result<RoomInfo, SessionError>) -> (r: RoomResponse)
        ensures
            match outcome {
                Ok(info) => r.is_room(info.room_id@, info.client_count, info.status@),
                Err(e) => r.is_failure(e@.message()),
            },
    {
        match outcome {
            Ok(info) => RoomResponse {
                success: true,
                room_id: Some(info.room_id),
                error: None,
                client_count: Some(info.client_count),
                status: Some(info.status),
            },
            Err(e) => RoomResponse::failed(e.message()),
        }
    }

    /// The answer to an operation that found no session at all.
    pub fn not_connected() -> (r: RoomResponse)
        ensures
            r.is_failure("Not connected to server"@),
    {
        RoomResponse::failed("Not connected to server".to_owned())
    }
}

impl TestResponse {
    /// What the response carries as the result of the run.
    pub open spec fn report(self) -> Option<Report> {
        match self.result {
            Some(result) => Some(result@),
            None => None,
        }
    }

    /// The answer to a local run: its result, or the message of the error.
    pub fn from_result(outcome: Result<TestResult, EngineError>) -> (r: TestResponse)
        ensures
            match outcome {
                Ok(result) => r.success && r.error is None && r.report() == Some(result@),
                Err(e) => !r.success && text_view(r.error) == Some(e@.message())
                    && r.result is None,
            },
    {
        match outcome {
            Ok(result) => TestResponse { success: true, error: None, result: Some(result) },
            Err(e) => TestResponse { success: false, error: Some(e.message()), result: None },
        }
    }
}

} // verus!
