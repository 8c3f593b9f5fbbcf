//! The messages that an agent and the relay exchange.
//!
//! A request is the JSON object `{"type": <verb>, "payload": {...}}`. Its
//! reply carries the type `<verb>-response` and a payload with a boolean
//! `success` and, when that is not `true`, a text `error`.

use crate::config::TestConfig;
use crate::json::{
    empty_object, json_as_bool, json_as_str, json_as_u64, json_clone, json_empty_object, json_get,
    json_is_null, json_model, json_set_member, json_string, member, JsonModel, JsonNumber,
};
use crate::text::{drop_suffix, has_suffix, join, strip_suffix};
use vstd::prelude::*;

verus! {

/// How long a caller waits for the reply to a request, in seconds.
pub const RESPONSE_TIMEOUT_SECS: u64 = 10;

/// Why an operation of the session did not succeed.
#[derive(Clone, Debug, PartialEq, Eq)]
pub enum SessionError {
    /// The operation needs a connection and there is none.
    NotConnected,
    /// The address of the relay is no absolute URL; the parser's reason.
    InvalidUrl(String),
    /// The connection could not be opened; the transport's reason.
    ConnectionFailed(String),
    /// The request could not be written as JSON; the writer's reason.
    Serialize(String),
    /// The request could not be handed to the connection; the reason.
    SendFailed(String),
    /// No reply arrived in time.
    Timeout,
    /// The connection went down while the request was waiting.
    ConnectionLost,
    /// The relay answered without `success: true`; its `error` text.
    Rejected(String),
    /// The relay's answer names no room.
    MissingRoomId,
}

/// The mathematical content of a [`SessionError`].
pub enum SessionFault {
    NotConnected,
    InvalidUrl(Seq<char>),
    ConnectionFailed(Seq<char>),
    Serialize(Seq<char>),
    SendFailed(Seq<char>),
    Timeout,
    ConnectionLost,
    Rejected(Seq<char>),
    MissingRoomId,
}

impl View for SessionError {
    type V = SessionFault;

    open spec fn view(&self) -> SessionFault {
        match self {
            SessionError::NotConnected => SessionFault::NotConnected,
            SessionError::InvalidUrl(reason) => SessionFault::InvalidUrl(reason@),
            SessionError::ConnectionFailed(reason) => SessionFault::ConnectionFailed(reason@),
            SessionError::Serialize(reason) => SessionFault::Serialize(reason@),
            SessionError::SendFailed(reason) => SessionFault::SendFailed(reason@),
            SessionError::Timeout => SessionFault::Timeout,
            SessionError::ConnectionLost => SessionFault::ConnectionLost,
            SessionError::Rejected(error) => SessionFault::Rejected(error@),
            SessionError::MissingRoomId => SessionFault::MissingRoomId,
        }
    }
}

impl SessionFault {
    /// The message shown to the user.
    pub open spec fn message(self) -> Seq<char> {
        match self {
            SessionFault::NotConnected => "WebSocket is not connected"@,
            SessionFault::InvalidUrl(reason) => "Invalid WebSocket URL: "@ + reason,
            SessionFault::ConnectionFailed(reason) => "Failed to connect to WebSocket server: "@
                + reason,
            SessionFault::Serialize(reason) => "Failed to serialize message: "@ + reason,
            SessionFault::SendFailed(reason) => "Failed to send message: "@ + reason,
            SessionFault::Timeout => "Timeout waiting for response"@,
            SessionFault::ConnectionLost => "Response channel closed"@,
            SessionFault::Rejected(error) => error,
            SessionFault::MissingRoomId => "No room ID in response"@,
        }
    }
}

impl SessionError {
    /// The message shown to the user.
    pub fn message(&self) -> (r: String)
        ensures
            r@ == self@.message(),
    {
        match self {
            SessionError::NotConnected => "WebSocket is not connected".to_owned(),
            SessionError::InvalidUrl(reason) => join("Invalid WebSocket URL: ", reason.as_str()),
            SessionError::ConnectionFailed(reason) => join(
                "Failed to connect to WebSocket server: ",
                reason.as_str(),
            ),
            SessionError::Serialize(reason) => join(
                "Failed to serialize message: ",
                reason.as_str(),
            ),
            SessionError::SendFailed(reason) => join("Failed to send message: ", reason.as_str()),
            SessionError::Timeout => "Timeout waiting for response".to_owned(),
            SessionError::ConnectionLost => "Response channel closed".to_owned(),
            SessionError::Rejected(error) => error.clone(),
            SessionError::MissingRoomId => "No room ID in response".to_owned(),
        }
    }
}

/// What the relay reports of a room when an agent joins it.
#[derive(Clone, Debug, PartialEq, Eq)]
pub struct RoomInfo {
    pub room_id: String,
    pub client_count: u32,
    pub status: String,
    /// The configuration of the room's test, if it has one.
    pub config: Option<TestConfig>,
}

/// What the relay announces when a test starts.
#[derive(Clone, Debug, PartialEq, Eq)]
pub struct TestStartInfo {
    /// When the test starts, in seconds since the Unix epoch.
    pub start_time: u64,
    pub config: TestConfig,
}

/// The content of the request `{"type": message_type, "payload": payload}`.
pub open spec fn envelope_model(message_type: Seq<char>, payload: JsonModel) -> JsonModel {
    JsonModel::Object(
        Map::<Seq<char>, JsonModel>::empty().insert(
            "type"@,
            JsonModel::Text(message_type),
        ).insert("payload"@, payload),
    )
}

/// The content of the object that has `value` under `key` and nothing else.
pub open spec fn single_member(key: Seq<char>, value: JsonModel) -> JsonModel {
    JsonModel::Object(Map::<Seq<char>, JsonModel>::empty().insert(key, value))
}

/// The request of type `message_type` with `payload`.
pub fn envelope(message_type: &str, payload: serde_json::Value) -> (r: serde_json::Value)
    ensures
        json_model(r) == envelope_model(message_type@, json_model(payload)),
{
    let mut message = json_empty_object();
    json_set_member(&mut message, "type", json_string(message_type));
    json_set_member(&mut message, "payload", payload);
    message
}

/// The payload of a request that says nothing more than its type: `{}`.
pub fn empty_payload() -> (r: serde_json::Value)
    ensures
        json_model(r) == empty_object(),
{
    json_empty_object()
}

/// The payload that has `value` under `key` and nothing else.
pub fn single_payload(key: &str, value: serde_json::Value) -> (r: serde_json::Value)
    ensures
        json_model(r) == single_member(key@, json_model(value)),
{
    let mut payload = json_empty_object();
    json_set_member(&mut payload, key, value);
    payload
}

/// The payload of a request to join the room `room_id`: `{"roomId": room_id}`.
pub fn room_payload(room_id: &str) -> (r: serde_json::Value)
    ensures
        json_model(r) == single_member("roomId"@, JsonModel::Text(room_id@)),
{
    single_payload("roomId", json_string(room_id))
}

/// Whether a reply reports success: it has the member `success`, and that
/// is `true`. A reply without it, or with anything else under it, does not.
pub open spec fn reply_succeeded(reply: JsonModel) -> bool {
    member(reply, "success"@) == Some(JsonModel::Bool(true))
}

/// The error that a reply without success reports: the text under `error`,
/// or "Unknown error" where there is none.
pub open spec fn reply_error(reply: JsonModel) -> Seq<char> {
    match member(reply, "error"@) {
        Some(JsonModel::Text(error)) => error,
        _ => "Unknown error"@,
    }
}

/// What a reply comes to for the caller that waited for it.
pub open spec fn reply_verdict(reply: JsonModel) -> Result<(), SessionFault> {
    if reply_succeeded(reply) {
        Ok(())
    } else {
        Err(SessionFault::Rejected(reply_error(reply)))
    }
}

/// Reads whether a reply reports success, and its error if it does not.
pub fn check_reply(reply: &serde_json::Value) -> (r: Result<(), SessionError>)
    ensures
        match r {
            Ok(_) => reply_verdict(json_model(*reply)) == Ok::<(), SessionFault>(()),
            Err(e) => reply_verdict(json_model(*reply)) == Err::<(), SessionFault>(e@),
        },
{
    let success = match json_get(reply, "success") {
        Some(flag) => match json_as_bool(flag) {
            Some(b) => b,
            None => false,
        },
        None => false,
    };
    if success {
        return Ok(());
    }
    let named = match json_get(reply, "error") {
        Some(error) => json_as_str(error),
        None => None,
    };
    match named {
        Some(error) => Err(SessionError::Rejected(error.to_owned())),
        None => Err(SessionError::Rejected("Unknown error".to_owned())),
    }
}

/// The text under `key`, if the object has a text there.
pub open spec fn text_member(m: JsonModel, key: Seq<char>) -> Option<Seq<char>> {
    match member(m, key) {
        Some(JsonModel::Text(s)) => Some(s),
        _ => None,
    }
}

/// The number under `key`, if the object has a non-negative integer of at
/// most 64 bits there.
pub open spec fn number_member(m: JsonModel, key: Seq<char>) -> Option<u64> {
    match member(m, key) {
        Some(JsonModel::Number(JsonNumber::Unsigned(n))) => Some(n),
        _ => None,
    }
}

/// The room that a reply names under `roomId`.
pub open spec fn reply_room_id(reply: JsonModel) -> Result<Seq<char>, SessionFault> {
    match text_member(reply, "roomId"@) {
        Some(id) => Ok(id),
        None => Err(SessionFault::MissingRoomId),
    }
}

fn text_of<'a>(v: &'a serde_json::Value, key: &str) -> (r: Option<&'a str>)
    ensures
        match r {
            Some(s) => text_member(json_model(*v), key@) == Some(s@),
            None => text_member(json_model(*v), key@) is None,
        },
{
    match json_get(v, key) {
        Some(x) => json_as_str(x),
        None => None,
    }
}

/// Reads the room that a reply names.
pub fn room_id_of(reply: &serde_json::Value) -> (r: Result<String, SessionError>)
    ensures
        match r {
            Ok(id) => reply_room_id(json_model(*reply)) == Ok::<Seq<char>, SessionFault>(id@),
            Err(e) => reply_room_id(json_model(*reply)) == Err::<Seq<char>, SessionFault>(e@),
        },
{
    match text_of(reply, "roomId") {
        Some(id) => Ok(id.to_owned()),
        None => Err(SessionError::MissingRoomId),
    }
}

/// How many agents a reply counts in the room: the number under
/// `clientCount` cut to 32 bits, and 1 where there is none.
pub open spec fn reply_client_count(reply: JsonModel) -> u32 {
    match number_member(reply, "clientCount"@) {
        Some(n) => (n % 0x1_0000_0000) as u32,
        None => 1,
    }
}

/// The status that a reply reports of the room: the text under `status`,
/// and "waiting" where there is none.
pub open spec fn reply_status(reply: JsonModel) -> Seq<char> {
    match text_member(reply, "status"@) {
        Some(status) => status,
        None => "waiting"@,
    }
}

/// The configuration that a reply carries under `config`, if it has one
/// that is not `null`.
pub open spec fn reply_config_model(reply: JsonModel) -> Option<JsonModel> {
    match member(reply, "config"@) {
        Some(config) => if config is Null {
            None
        } else {
            Some(config)
        },
        None => None,
    }
}

/// Reads the JSON of the configuration that a reply carries, if it carries
/// one. Decoding it is left to the caller.
pub fn reply_config(reply: &serde_json::Value) -> (r: Option<serde_json::Value>)
    ensures
        match r {
            Some(config) => reply_config_model(json_model(*reply)) == Some(json_model(config)),
            None => reply_config_model(json_model(*reply)) is None,
        },
{
    match json_get(reply, "config") {
        Some(config) => if json_is_null(config) {
            None
        } else {
            Some(json_clone(config))
        },
        None => None,
    }
}

/// Reads what a reply to a join reports of the room. `config` is the
/// decoded configuration of the room, if the reply carries one.
pub fn room_info_of(reply: &serde_json::Value, config: Option<TestConfig>) -> (r: Result<
    RoomInfo,
    SessionError,
>)
    ensures
        match r {
            Ok(info) => {
                &&& reply_room_id(json_model(*reply)) == Ok::<Seq<char>, SessionFault>(
                    info.room_id@,
                )
                &&& info.client_count == reply_client_count(json_model(*reply))
                &&& info.status@ == reply_status(json_model(*reply))
                &&& info.config == config
            },
            Err(e) => reply_room_id(json_model(*reply)) == Err::<Seq<char>, SessionFault>(e@),
        },
{
    let room_id = match text_of(reply, "roomId") {
        Some(id) => id.to_owned(),
        None => {
            return Err(SessionError::MissingRoomId);
        },
    };
    let counted = match json_get(reply, "clientCount") {
        Some(count) => json_as_u64(count),
        None => None,
    };
    let client_count: u32 = match counted {
        Some(n) => (n % 0x1_0000_0000) as u32,
        None => 1,
    };
    let status = match text_of(reply, "status") {
        Some(status) => status.to_owned(),
        None => "waiting".to_owned(),
    };
    Ok(RoomInfo { room_id, client_count, status, config })
}

/// The request type that a frame answers, and the payload it brings.
///
/// A frame is a reply when it is an object with a text under `type` that
/// ends in `-response` and a member `payload`; the request type is that
/// text without the ending. Any other frame answers nothing.
pub open spec fn frame_reply(frame: JsonModel) -> Option<(Seq<char>, JsonModel)> {
    match (text_member(frame, "type"@), member(frame, "payload"@)) {
        (Some(message_type), Some(payload)) => if has_suffix(message_type, "-response"@) {
            Some((drop_suffix(message_type, "-response"@.len()), payload))
        } else {
            None
        },
        _ => None,
    }
}

/// Reads which request a frame answers and the payload it brings, if it is
/// a reply.
pub fn read_frame(frame: &serde_json::Value) -> (r: Option<(String, serde_json::Value)>)
    ensures
        match r {
            Some((request_type, payload)) => frame_reply(json_model(*frame)) == Some(
                (request_type@, json_model(payload)),
            ),
            None => frame_reply(json_model(*frame)) is None,
        },
{
    let message_type = match text_of(frame, "type") {
        Some(message_type) => message_type,
        None => {
            return None;
        },
    };
    let payload = match json_get(frame, "payload") {
        Some(payload) => payload,
        None => {
            return None;
        },
    };
    match strip_suffix(message_type, "-response") {
        Some(request_type) => Some((request_type, json_clone(payload))),
        None => None,
    }
}

} // verus!
