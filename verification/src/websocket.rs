//! One agent's session with the relay.
//!
//! A [`WebSocketClient`] holds what the agent knows of its connection: whether
//! it is up, which requests wait for a reply, and which room the agent is in.
//! It performs no input or output. Its caller owns the connection and the
//! timers, hands each event to the client, and does what the client answers:
//! it sends the text of an [`Outbound`], keeps a response slot under its
//! ticket, and fulfils the slot of a [`Delivery`].
//!
//! Requests wait under their message type, so at most one request of each
//! type may be outstanding: a second one takes the place of the first, whose
//! caller then hears nothing and gives up when its time has run out.

use crate::address::{url_parse_error, url_parse_failure};
use crate::config::TestConfig;
use crate::correlator::{
    lemma_drain_reaches_all, lemma_timeout_restores, ResponseCorrelator, Table,
};
use crate::json::{
    empty_object, json_model, json_parse, json_parsed, json_render, json_rendered, JsonModel,
};
use crate::protocol::{
    check_reply, empty_payload, envelope, envelope_model, frame_reply, read_frame,
    reply_client_count, reply_room_id, reply_status, reply_verdict, room_id_of, room_info_of,
    room_payload, single_member, single_payload, RoomInfo, SessionError, SessionFault,
    RESPONSE_TIMEOUT_SECS,
};
use vstd::prelude::*;

verus! {

/// A request that is ready to go out.
#[derive(Clone, Debug, PartialEq, Eq)]
pub struct Outbound {
    /// Names the response slot of the request.
    pub ticket: u64,
    /// The text frame to send.
    pub text: String,
    /// How long to wait for the reply, in seconds.
    pub timeout_secs: u64,
}

/// A reply that has found its request.
#[derive(Debug)]
pub struct Delivery {
    /// Names the response slot to fulfil.
    pub ticket: u64,
    /// The payload of the reply.
    pub payload: serde_json::Value,
}

/// How the wait for a reply ended.
#[derive(Debug)]
pub enum ReplyEvent {
    /// The reply arrived with this payload.
    Answered(serde_json::Value),
    /// No reply arrived in time.
    TimedOut,
    /// The connection went down first.
    ConnectionLost,
}

/// The mathematical content of a [`WebSocketClient`].
#[verifier::ext_equal]
pub struct Session {
    pub connected: bool,
    pub table: Table,
    pub current_room: Option<Seq<char>>,
}

impl Session {
    /// The session of an agent that has not connected yet.
    pub open spec fn initial() -> Session {
        Session { connected: false, table: Table::empty(), current_room: None }
    }

    /// The session after a request of type `message_type` has gone out.
    pub open spec fn sent(self, message_type: Seq<char>) -> Session {
        Session { table: self.table.register(message_type), ..self }
    }

    /// The session after the caller with `ticket` has stopped waiting.
    pub open spec fn released(self, ticket: u64) -> Session {
        Session { table: self.table.without_ticket(ticket), ..self }
    }

    /// The session after the connection went down.
    pub open spec fn dropped(self) -> Session {
        Session { connected: false, table: self.table.drain(), ..self }
    }

    /// The session after a frame arrived that answers `reply`.
    pub open spec fn routed(self, reply: Option<(Seq<char>, JsonModel)>) -> Session {
        match reply {
            Some((request_type, _)) => Session {
                table: self.table.without_type(request_type),
                ..self
            },
            None => self,
        }
    }

    /// The ticket to fulfil when a frame arrives that answers `reply`.
    pub open spec fn addressee(self, reply: Option<(Seq<char>, JsonModel)>) -> Option<u64> {
        match reply {
            Some((request_type, _)) => self.table.ticket_for(request_type),
            None => None,
        }
    }
}

/// What the wait for a reply comes to: the payload of a reply that reports
/// success, the relay's error for one that does not, and the way the wait
/// ended where no reply arrived.
pub open spec fn wait_verdict(event: ReplyEvent) -> Result<JsonModel, SessionFault> {
    match event {
        ReplyEvent::Answered(payload) => match reply_verdict(json_model(payload)) {
            Ok(_) => Ok(json_model(payload)),
            Err(fault) => Err(fault),
        },
        ReplyEvent::TimedOut => Err(SessionFault::Timeout),
        ReplyEvent::ConnectionLost => Err(SessionFault::ConnectionLost),
    }
}

/// Whether `r` and `after` are what sending a request of type
/// `message_type` comes to in the session `before`, when its frame was
/// written as `rendered`.
///
/// Without a connection the answer is `NotConnected`. With one, a frame
/// that could not be written is answered with the writer's reason. In both
/// cases the session stays as it was. Otherwise the request is registered
/// under the next ticket, and the answer carries the ticket, the text of
/// the frame and the time to wait.
pub open spec fn rendered_outcome(
    before: Session,
    message_type: Seq<char>,
    rendered: Result<Seq<char>, Seq<char>>,
    r: Result<Outbound, SessionError>,
    after: Session,
) -> bool {
    if !before.connected {
        &&& r matches Err(e)
        &&& e@ == SessionFault::NotConnected
        &&& after == before
    } else {
        match rendered {
            Err(reason) => {
                &&& r matches Err(e)
                &&& e@ == SessionFault::Serialize(reason)
                &&& after == before
            },
            Ok(text) => {
                &&& r matches Ok(out)
                &&& out.text@ == text
                &&& out.ticket == before.table.issued
                &&& out.timeout_secs == RESPONSE_TIMEOUT_SECS
                &&& after == before.sent(message_type)
            },
        }
    }
}

/// Whether `r` and `after` are what sending the request of type
/// `message_type` with `payload` comes to in the session `before`: what
/// [`rendered_outcome`] says for the text of the frame
/// `{"type": message_type, "payload": payload}`.
pub open spec fn send_outcome(
    before: Session,
    message_type: Seq<char>,
    payload: JsonModel,
    r: Result<Outbound, SessionError>,
    after: Session,
) -> bool {
    rendered_outcome(
        before,
        message_type,
        json_rendered(envelope_model(message_type, payload)),
        r,
        after,
    )
}

/// The text of a rendering, whichever way it ended.
pub open spec fn rendering_view(rendered: Result<String, String>) -> Result<
    Seq<char>,
    Seq<char>,
> {
    match rendered {
        Ok(text) => Ok(text@),
        Err(reason) => Err(reason@),
    }
}

/// What the wait for a reply that is to name a room comes to: the room
/// that the reply names.
pub open spec fn room_verdict(event: ReplyEvent) -> Result<Seq<char>, SessionFault> {
    match wait_verdict(event) {
        Ok(reply) => reply_room_id(reply),
        Err(fault) => Err(fault),
    }
}

/// What the wait for a reply that only acknowledges comes to.
pub open spec fn acknowledged_verdict(event: ReplyEvent) -> Result<(), SessionFault> {
    match wait_verdict(event) {
        Ok(_) => Ok(()),
        Err(fault) => Err(fault),
    }
}

/// A request that is sent while none of its type waits, and whose caller
/// gives up when no reply has come in time, is answered with `Timeout` and
/// leaves the session as it found it but for the ticket it used: as many
/// requests wait as before the call, and the same ones.
pub proof fn lemma_timeout_leaves_no_trace(before: Session, message_type: Seq<char>)
    requires
        before.table.well_formed(),
        before.table.issued < u64::MAX,
        !before.table.waits_for(message_type),
    ensures
        wait_verdict(ReplyEvent::TimedOut) == Err::<JsonModel, SessionFault>(SessionFault::Timeout),
        before.sent(message_type).released(before.table.issued as u64).table.pending
            == before.table.pending,
        before.sent(message_type).released(before.table.issued as u64).table.pending.len()
            == before.table.pending.len(),
        before.sent(message_type).released(before.table.issued as u64).connected
            == before.connected,
{
    lemma_timeout_restores(before.table, message_type);
}

/// When the connection goes down, the caller of every request that waits
/// hears of it: its ticket is among those handed back, the wait of each
/// ends in `ConnectionLost`, and nothing waits any more.
pub proof fn lemma_connection_loss_reaches_all(before: Session, ticket: u64)
    requires
        before.table.holds_ticket(ticket),
    ensures
        before.table.tickets().contains(ticket),
        wait_verdict(ReplyEvent::ConnectionLost) == Err::<JsonModel, SessionFault>(
            SessionFault::ConnectionLost,
        ),
        before.dropped().table.pending.len() == 0,
        !before.dropped().connected,
{
    lemma_drain_reaches_all(before.table, ticket);
}

/// One agent's session with the relay.
#[derive(Debug)]
pub struct WebSocketClient {
    connected: bool,
    correlator: ResponseCorrelator,
    current_room: Option<String>,
}

impl View for WebSocketClient {
    type V = Session;

    closed spec fn view(&self) -> Session {
        Session {
            connected: self.connected,
            table: self.correlator@,
            current_room: match self.current_room {
                Some(room) => Some(room@),
                None => None,
            },
        }
    }
}

impl WebSocketClient {
    /// The session for a relay whose address the URL parser has judged:
    /// none when it rejected the address, and else one that is not
    /// connected yet.
    pub fn with_checked_address(url_error: Option<String>) -> (r: Result<
        WebSocketClient,
        SessionError,
    >)
        ensures
            match r {
                Ok(client) => url_error is None && client@ == Session::initial(),
                Err(e) => url_error matches Some(reason) && e@ == SessionFault::InvalidUrl(
                    reason@,
                ),
            },
    {
        match url_error {
            Some(reason) => Err(SessionError::InvalidUrl(reason)),
            None => Ok(
                WebSocketClient {
                    connected: false,
                    correlator: ResponseCorrelator::new(),
                    current_room: None,
                },
            ),
        }
    }

    /// The session for the relay at `server_url`, not connected yet; none
    /// when the address is no absolute URL.
    pub fn new(server_url: &str) -> (r: Result<WebSocketClient, SessionError>)
        ensures
            match r {
                Ok(client) => url_parse_error(server_url@) is None && client@
                    == Session::initial(),
                Err(e) => url_parse_error(server_url@) matches Some(reason) && e@
                    == SessionFault::InvalidUrl(reason),
            },
    {
        WebSocketClient::with_checked_address(url_parse_failure(server_url))
    }

    /// The error of a connection that could not be opened.
    pub fn connection_failed(reason: &str) -> (r: SessionError)
        ensures
            r@ == SessionFault::ConnectionFailed(reason@),
    {
        SessionError::ConnectionFailed(reason.to_owned())
    }

    /// Notes that the connection is up.
    pub fn connection_opened(&mut self)
        ensures
            final(self)@ == (Session { connected: true, ..old(self)@ }),
    {
        self.connected = true;
    }

    /// Notes that the connection went down, by an error on either side or
    /// by a close. Returns the tickets of all requests that waited, oldest
    /// first: each of their callers is to hear that the connection is lost.
    pub fn connection_lost(&mut self) -> (r: Vec<u64>)
        ensures
            r@ == old(self)@.table.tickets(),
            final(self)@ == old(self)@.dropped(),
    {
        self.connected = false;
        self.correlator.drain()
    }

    pub fn is_connected(&self) -> (r: bool)
        ensures
            r == self@.connected,
    {
        self.connected
    }

    /// The room the agent is in, as far as the session knows.
    pub fn current_room(&self) -> (r: Option<String>)
        ensures
            match r {
                Some(room) => self@.current_room == Some(room@),
                None => self@.current_room is None,
            },
    {
        match &self.current_room {
            Some(room) => Some(room.clone()),
            None => None,
        }
    }

    /// How many requests wait for a reply.
    pub fn pending_count(&self) -> (r: usize)
        ensures
            r == self@.table.pending.len(),
            self@.table.well_formed(),
    {
        self.correlator.len()
    }

    /// Whether the session can number one more request.
    pub fn can_send(&self) -> (r: bool)
        ensures
            r == (self@.table.issued < u64::MAX),
    {
        self.correlator.has_tickets()
    }

    /// Registers a request of type `message_type` whose frame was written
    /// as `rendered`, and returns what to send.
    ///
    /// Without a connection nothing is registered. Nor is it when the frame
    /// could not be written.
    pub fn send_rendered(&mut self, message_type: &str, rendered: Result<String, String>) -> (r:
        Result<Outbound, SessionError>)
        requires
            old(self)@.table.issued < u64::MAX,
        ensures
            rendered_outcome(
                old(self)@,
                message_type@,
                rendering_view(rendered),
                r,
                final(self)@,
            ),
    {
        if !self.connected {
            return Err(SessionError::NotConnected);
        }
        match rendered {
            Err(reason) => Err(SessionError::Serialize(reason)),
            Ok(text) => {
                let ticket = self.correlator.register(message_type);
                Ok(Outbound { ticket, text, timeout_secs: RESPONSE_TIMEOUT_SECS })
            },
        }
    }

    /// Prepares the request of type `message_type` with `payload`: the frame
    /// `{"type": message_type, "payload": payload}` as text, registered
    /// under a new ticket.
    ///
    /// Without a connection the answer is `NotConnected`, and nothing is
    /// registered.
    pub fn send_message(&mut self, message_type: &str, payload: serde_json::Value) -> (r: Result<
        Outbound,
        SessionError,
    >)
        requires
            old(self)@.table.issued < u64::MAX,
        ensures
            send_outcome(old(self)@, message_type@, json_model(payload), r, final(self)@),
            !old(self)@.connected ==> (r matches Err(e) && e@ == SessionFault::NotConnected),
    {
        let frame = envelope(message_type, payload);
        let rendered = json_render(&frame);
        self.send_rendered(message_type, rendered)
    }

    /// Asks the relay for a new room: the request `create-room` with the
    /// payload `{}`.
    pub fn create_room(&mut self) -> (r: Result<Outbound, SessionError>)
        requires
            old(self)@.table.issued < u64::MAX,
        ensures
            send_outcome(old(self)@, "create-room"@, empty_object(), r, final(self)@),
            !old(self)@.connected ==> (r matches Err(e) && e@ == SessionFault::NotConnected),
    {
        self.send_message("create-room", empty_payload())
    }

    /// Asks the relay to let the agent into the room `room_id`: the request
    /// `join-room` with the payload `{"roomId": room_id}`.
    pub fn join_room(&mut self, room_id: &str) -> (r: Result<Outbound, SessionError>)
        requires
            old(self)@.table.issued < u64::MAX,
        ensures
            send_outcome(
                old(self)@,
                "join-room"@,
                single_member("roomId"@, JsonModel::Text(room_id@)),
                r,
                final(self)@,
            ),
            !old(self)@.connected ==> (r matches Err(e) && e@ == SessionFault::NotConnected),
    {
        self.send_message("join-room", room_payload(room_id))
    }

    /// Hands the room's test configuration to the relay: the request
    /// `configure-test` with the payload `{"config": config}`, `config`
    /// being the configuration as JSON.
    pub fn configure_test(&mut self, config: serde_json::Value) -> (r: Result<
        Outbound,
        SessionError,
    >)
        requires
            old(self)@.table.issued < u64::MAX,
        ensures
            send_outcome(
                old(self)@,
                "configure-test"@,
                single_member("config"@, json_model(config)),
                r,
                final(self)@,
            ),
            !old(self)@.connected ==> (r matches Err(e) && e@ == SessionFault::NotConnected),
    {
        self.send_message("configure-test", single_payload("config", config))
    }

    /// Asks the relay to start the room's test: the request `start-test`
    /// with the payload `{}`.
    pub fn start_test(&mut self) -> (r: Result<Outbound, SessionError>)
        requires
            old(self)@.table.issued < u64::MAX,
        ensures
            send_outcome(old(self)@, "start-test"@, empty_object(), r, final(self)@),
            !old(self)@.connected ==> (r matches Err(e) && e@ == SessionFault::NotConnected),
    {
        self.send_message("start-test", empty_payload())
    }

    /// Reports the result of a run to the relay: the request
    /// `submit-results` with the payload `{"results": results}`, `results`
    /// being the result as JSON.
    pub fn submit_results(&mut self, results: serde_json::Value) -> (r: Result<
        Outbound,
        SessionError,
    >)
        requires
            old(self)@.table.issued < u64::MAX,
        ensures
            send_outcome(
                old(self)@,
                "submit-results"@,
                single_member("results"@, json_model(results)),
                r,
                final(self)@,
            ),
            !old(self)@.connected ==> (r matches Err(e) && e@ == SessionFault::NotConnected),
    {
        self.send_message("submit-results", single_payload("results", results))
    }

    /// Tells the relay that the agent leaves its room: the request
    /// `leave-room` with the payload `{}`.
    pub fn leave_room(&mut self) -> (r: Result<Outbound, SessionError>)
        requires
            old(self)@.table.issued < u64::MAX,
        ensures
            send_outcome(old(self)@, "leave-room"@, empty_object(), r, final(self)@),
            !old(self)@.connected ==> (r matches Err(e) && e@ == SessionFault::NotConnected),
    {
        self.send_message("leave-room", empty_payload())
    }

    /// Routes a frame that arrived: when it answers a request that waits,
    /// the request leaves the table and its ticket is returned with the
    /// payload. A frame that is no reply, or that answers nothing that
    /// waits, is dropped.
    pub fn route_frame(&mut self, frame: &serde_json::Value) -> (r: Option<Delivery>)
        ensures
            final(self)@ == old(self)@.routed(frame_reply(json_model(*frame))),
            match r {
                Some(delivery) => {
                    &&& old(self)@.addressee(frame_reply(json_model(*frame))) == Some(
                        delivery.ticket,
                    )
                    &&& frame_reply(json_model(*frame)) matches Some((_, payload))
                        && json_model(delivery.payload) == payload
                },
                None => old(self)@.addressee(frame_reply(json_model(*frame))) is None,
            },
    {
        match read_frame(frame) {
            Some((request_type, payload)) => match self.correlator.resolve(request_type.as_str()) {
                Some(ticket) => Some(Delivery { ticket, payload }),
                None => None,
            },
            None => None,
        }
    }

    /// Routes a text frame that arrived. A text that is not JSON is dropped.
    pub fn on_message(&mut self, text: &str) -> (r: Option<Delivery>)
        ensures
            match json_parsed(text@) {
                Some(frame) => {
                    &&& final(self)@ == old(self)@.routed(frame_reply(frame))
                    &&& match r {
                        Some(delivery) => {
                            &&& old(self)@.addressee(frame_reply(frame)) == Some(delivery.ticket)
                            &&& frame_reply(frame) matches Some((_, payload)) && json_model(
                                delivery.payload,
                            ) == payload
                        },
                        None => old(self)@.addressee(frame_reply(frame)) is None,
                    }
                },
                None => r is None && final(self)@ == old(self)@,
            },
    {
        match json_parse(text) {
            Some(frame) => self.route_frame(&frame),
            None => None,
        }
    }

    /// Ends the wait of the caller with `ticket`: its request waits no
    /// longer, however the wait ended, and the caller gets the payload of a
    /// reply that reports success, the relay's error for one that does not,
    /// `Timeout` when no reply came, and `ConnectionLost` when the
    /// connection went down.
    pub fn await_response(&mut self, ticket: u64, event: ReplyEvent) -> (r: Result<
        serde_json::Value,
        SessionError,
    >)
        ensures
            final(self)@ == old(self)@.released(ticket),
            match r {
                Ok(payload) => event == ReplyEvent::Answered(payload) && wait_verdict(event)
                    == Ok::<JsonModel, SessionFault>(json_model(payload)),
                Err(e) => wait_verdict(event) == Err::<JsonModel, SessionFault>(e@),
            },
    {
        self.correlator.expire(ticket);
        match event {
            ReplyEvent::Answered(payload) => match check_reply(&payload) {
                Ok(_) => Ok(payload),
                Err(e) => Err(e),
            },
            ReplyEvent::TimedOut => Err(SessionError::Timeout),
            ReplyEvent::ConnectionLost => Err(SessionError::ConnectionLost),
        }
    }

    /// Ends the wait for the reply to `create-room`. On success the agent
    /// is in the room that the reply names, and that room is returned.
    pub fn room_created(&mut self, ticket: u64, event: ReplyEvent) -> (r: Result<
        String,
        SessionError,
    >)
        ensures
            match r {
                Ok(room) => {
                    &&& room_verdict(event) == Ok::<Seq<char>, SessionFault>(room@)
                    &&& final(self)@ == (Session {
                        current_room: Some(room@),
                        ..old(self)@.released(ticket)
                    })
                },
                Err(e) => {
                    &&& room_verdict(event) == Err::<Seq<char>, SessionFault>(e@)
                    &&& final(self)@ == old(self)@.released(ticket)
                },
            },
    {
        let reply = match self.await_response(ticket, event) {
            Ok(reply) => reply,
            Err(e) => {
                return Err(e);
            },
        };
        match room_id_of(&reply) {
            Ok(room) => {
                self.current_room = Some(room.clone());
                Ok(room)
            },
            Err(e) => Err(e),
        }
    }

    /// Ends the wait for the reply to `join-room` for the room `room_id`.
    /// `config` is the decoded configuration that the reply carries, if it
    /// carries one. On success the agent is in the room it asked for, and
    /// what the relay reports of the room is returned.
    pub fn room_joined(
        &mut self,
        ticket: u64,
        event: ReplyEvent,
        room_id: &str,
        config: Option<TestConfig>,
    ) -> (r: Result<RoomInfo, SessionError>)
        ensures
            match r {
                Ok(info) => {
                    &&& wait_verdict(event) matches Ok(reply)
                    &&& reply_room_id(reply) == Ok::<Seq<char>, SessionFault>(info.room_id@)
                    &&& info.client_count == reply_client_count(reply)
                    &&& info.status@ == reply_status(reply)
                    &&& info.config == config
                    &&& final(self)@ == (Session {
                        current_room: Some(room_id@),
                        ..old(self)@.released(ticket)
                    })
                },
                Err(e) => {
                    &&& room_verdict(event) == Err::<Seq<char>, SessionFault>(e@)
                    &&& final(self)@ == old(self)@.released(ticket)
                },
            },
    {
        let reply = match self.await_response(ticket, event) {
            Ok(reply) => reply,
            Err(e) => {
                return Err(e);
            },
        };
        match room_info_of(&reply, config) {
            Ok(info) => {
                self.current_room = Some(room_id.to_owned());
                Ok(info)
            },
            Err(e) => Err(e),
        }
    }

    /// Ends the wait for a reply that only acknowledges: the one to
    /// `configure-test`, `start-test` or `submit-results`.
    pub fn acknowledged(&mut self, ticket: u64, event: ReplyEvent) -> (r: Result<
        (),
        SessionError,
    >)
        ensures
            final(self)@ == old(self)@.released(ticket),
            match r {
                Ok(_) => acknowledged_verdict(event) == Ok::<(), SessionFault>(()),
                Err(e) => acknowledged_verdict(event) == Err::<(), SessionFault>(e@),
            },
    {
        match self.await_response(ticket, event) {
            Ok(_) => Ok(()),
            Err(e) => Err(e),
        }
    }

    /// Ends the wait for the reply to `leave-room`. On success the agent is
    /// in no room any more.
    pub fn room_left(&mut self, ticket: u64, event: ReplyEvent) -> (r: Result<(), SessionError>)
        ensures
            match r {
                Ok(_) => {
                    &&& acknowledged_verdict(event) == Ok::<(), SessionFault>(())
                    &&& final(self)@ == (Session {
                        current_room: None,
                        ..old(self)@.released(ticket)
                    })
                },
                Err(e) => {
                    &&& acknowledged_verdict(event) == Err::<(), SessionFault>(e@)
                    &&& final(self)@ == old(self)@.released(ticket)
                },
            },
    {
        match self.await_response(ticket, event) {
            Ok(_) => {
                self.current_room = None;
                Ok(())
            },
            Err(e) => Err(e),
        }
    }
}

} // verus!
