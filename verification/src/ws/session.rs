use crate::ws::channel::{open_queue, Rx};
use crate::ws::event::EventMap;
use crate::ws::registry::{Outboxes, Registry};
use crate::ws::socket::Socket;
use crate::ws::ws_error::{ConnectionId, DecodeError};
use crate::ws::ws_io::{decoded, WsIoMsg};
use tokio_tungstenite::tungstenite::protocol::Message;
use vstd::prelude::*;

verus! {

/// Where a connection stands in its life.
#[derive(Debug, Clone, Copy, PartialEq, Eq, Structural)]
pub enum SessionState {
    /// The raw connection is being upgraded; nothing is shared yet.
    Handshaking,
    /// The outbound queue exists and the registry knows the connection.
    Registered,
    /// The pump runs and inbound frames are being read.
    Reading,
    /// Reading is over; the connection is still in the registry.
    Closing,
    /// The connection is out of the registry. Nothing follows.
    Closed,
}

/// What can happen to a session.
#[derive(Debug, Clone, Copy, PartialEq, Eq, Structural)]
pub enum SessionEvent {
    /// The upgrade failed.
    HandshakeFailed,
    /// The upgrade succeeded and the connection was registered.
    Upgraded,
    /// The pump of the outbound queue was started.
    PumpStarted,
    /// An inbound frame arrived.
    Frame,
    /// The read side ended, by end of stream or by an error.
    ReadEnded,
    /// The pump ended: the queue was closed, or a write failed.
    PumpEnded,
    /// The connection was taken out of the registry.
    Deregistered,
}

/// The state that follows an event. An event that the state has no use for
/// leaves it where it is.
pub open spec fn advance(state: SessionState, event: SessionEvent) -> SessionState {
    match (state, event) {
        (SessionState::Handshaking, SessionEvent::HandshakeFailed) => SessionState::Closed,
        (SessionState::Handshaking, SessionEvent::Upgraded) => SessionState::Registered,
        (SessionState::Registered, SessionEvent::PumpStarted) => SessionState::Reading,
        (SessionState::Reading, SessionEvent::ReadEnded) => SessionState::Closing,
        (SessionState::Reading, SessionEvent::PumpEnded) => SessionState::Closing,
        (SessionState::Closing, SessionEvent::Deregistered) => SessionState::Closed,
        _ => state,
    }
}

/// Whether the registry holds the connection of a session in this state.
pub open spec fn holds_registration(state: SessionState) -> bool {
    state == SessionState::Registered || state == SessionState::Reading || state
        == SessionState::Closing
}

/// Why an inbound frame leads to no call of a handler.
#[derive(Debug, Clone, Copy, PartialEq, Eq, Structural)]
pub enum Dropped {
    /// The session is not reading.
    NotReading,
    /// The frame is no envelope, for the reason given.
    NotAnEnvelope(DecodeError),
    /// Nothing is registered under the path of the envelope. This is no
    /// error: such an envelope is passed over.
    UnknownPath,
}

/// What an inbound frame leads to: the handler to call, with the payload it
/// gets, or the reason why none is called. The handler is the one registered
/// under exactly the path of the envelope.
pub open spec fn dispatched<A>(
    state: SessionState,
    events: Map<Seq<char>, A>,
    frame: Message,
) -> Result<(A, Seq<char>), Dropped> {
    if state != SessionState::Reading {
        Err(Dropped::NotReading)
    } else {
        match decoded(frame) {
            Err(why) => Err(Dropped::NotAnEnvelope(why)),
            Ok(e) => if events.contains_key(e.path) {
                Ok((events[e.path], e.payload))
            } else {
                Err(Dropped::UnknownPath)
            },
        }
    }
}

/// The registry after a session in `state` was asked to register: only one
/// that was still in the handshake enters its connection, with an empty
/// outbox.
pub open spec fn after_register(before: Outboxes, state: SessionState, id: ConnectionId) -> Outboxes {
    if state == SessionState::Handshaking {
        before.insert(id, Seq::empty())
    } else {
        before
    }
}

/// The registry after a session in `state` was asked to close: only one that
/// was closing takes its connection out.
pub open spec fn after_close(before: Outboxes, state: SessionState, id: ConnectionId) -> Outboxes {
    if state == SessionState::Closing {
        before.remove(id)
    } else {
        before
    }
}

/// One call of a handler that is due: the action, the handle for the
/// connection the frame came from, and the payload.
pub struct Call<'a, A> {
    pub action: &'a A,
    pub socket: Socket,
    pub payload: String,
}

/// What `on_frame` gives is what the frame leads to: the call of that handler
/// with that payload, for the connection `id`, or the same reason.
pub open spec fn answers<A>(
    due: Result<Call<'_, A>, Dropped>,
    id: ConnectionId,
    model: Result<(A, Seq<char>), Dropped>,
) -> bool {
    match model {
        Ok((action, payload)) => due matches Ok(call) && *call.action == action && call.payload@
            == payload && call.socket.address() == id,
        Err(why) => due matches Err(reason) && reason == why,
    }
}

/// Session: one connection's life, from the handshake to the moment it is out
/// of the registry again.
#[derive(Debug)]
pub struct Session {
    id: ConnectionId,
    state: SessionState,
}

impl Session {
    /// new: the session of a connection that was just accepted.
    pub fn new(id: ConnectionId) -> (s: Session)
        ensures
            s.id() == id,
            s.state() == SessionState::Handshaking,
    {
        Session { id, state: SessionState::Handshaking }
    }

    /// The connection's identity.
    pub closed spec fn spec_id(&self) -> ConnectionId {
        self.id
    }

    /// Where the session stands.
    pub closed spec fn spec_state(&self) -> SessionState {
        self.state
    }

    /// id: the connection's identity.
    #[verifier::when_used_as_spec(spec_id)]
    pub fn id(&self) -> (id: ConnectionId)
        ensures
            id == self.id(),
    {
        self.id
    }

    /// state: where the session stands.
    #[verifier::when_used_as_spec(spec_state)]
    pub fn state(&self) -> (state: SessionState)
        ensures
            state == self.state(),
    {
        self.state
    }

    /// handshake_failed: the upgrade failed. The session is over before
    /// anything was shared.
    pub fn handshake_failed(&mut self)
        ensures
            final(self).id() == old(self).id(),
            final(self).state() == advance(old(self).state(), SessionEvent::HandshakeFailed),
    {
        if self.state == SessionState::Handshaking {
            self.state = SessionState::Closed;
        }
    }

    /// register: the upgrade succeeded. Makes the outbound queue, enters its
    /// sending half into the registry and gives the receiving half out, for
    /// the pump. In any state but `Handshaking` nothing happens and nothing is
    /// given out.
    pub fn register(&mut self, clients: &mut Registry) -> (pump: Option<Rx>)
        ensures
            final(self).id() == old(self).id(),
            final(self).state() == advance(old(self).state(), SessionEvent::Upgraded),
            pump.is_some() == (old(self).state() == SessionState::Handshaking),
            final(clients)@ == after_register(old(clients)@, old(self).state(), old(self).id()),
    {
        if self.state == SessionState::Handshaking {
            let (sink, pump) = open_queue();
            clients.register(self.id, sink);
            self.state = SessionState::Registered;
            Some(pump)
        } else {
            None
        }
    }

    /// start_reading: the pump was started.
    pub fn start_reading(&mut self)
        ensures
            final(self).id() == old(self).id(),
            final(self).state() == advance(old(self).state(), SessionEvent::PumpStarted),
    {
        if self.state == SessionState::Registered {
            self.state = SessionState::Reading;
        }
    }

    /// on_frame: decides what an inbound frame leads to. The session stays as
    /// it is whatever the frame holds: a frame that is not text, not an
    /// envelope, or for a path that nothing is registered under is dropped,
    /// and the reason is given so that it can be logged.
    pub fn on_frame<'a, A>(&self, events: &'a EventMap<A>, frame: &Message) -> (due: Result<
        Call<'a, A>,
        Dropped,
    >)
        ensures
            answers(due, self.id(), dispatched(self.state(), events@, *frame)),
    {
        if self.state != SessionState::Reading {
            return Err(Dropped::NotReading);
        }
        let envelope = match WsIoMsg::decode(frame) {
            Err(why) => {
                return Err(Dropped::NotAnEnvelope(why));
            },
            Ok(envelope) => envelope,
        };
        match events.lookup(envelope.path().as_str()) {
            None => Err(Dropped::UnknownPath),
            Some(action) => Ok(
                Call { action, socket: Socket::new(self.id), payload: envelope.into_payload() },
            ),
        }
    }

    /// finish: the read side or the pump ended, whichever was first.
    pub fn finish(&mut self)
        ensures
            final(self).id() == old(self).id(),
            final(self).state() == advance(old(self).state(), SessionEvent::ReadEnded),
    {
        if self.state == SessionState::Reading {
            self.state = SessionState::Closing;
        }
    }

    /// close: takes the connection out of the registry. In any state but
    /// `Closing` nothing happens.
    pub fn close(&mut self, clients: &mut Registry)
        ensures
            final(self).id() == old(self).id(),
            final(self).state() == advance(old(self).state(), SessionEvent::Deregistered),
            final(clients)@ == after_close(old(clients)@, old(self).state(), old(self).id()),
    {
        if self.state == SessionState::Closing {
            clients.deregister(self.id);
            self.state = SessionState::Closed;
        }
    }
}

/// A frame whose path nothing is registered under calls for no handler, and
/// the session goes on reading.
pub proof fn lemma_unknown_path_is_ignored<A>(
    state: SessionState,
    events: Map<Seq<char>, A>,
    frame: Message,
)
    requires
        decoded(frame) matches Ok(e) && !events.contains_key(e.path),
    ensures
        dispatched(state, events, frame) is Err,
        state == SessionState::Reading ==> dispatched(state, events, frame) == Err::<
            (A, Seq<char>),
            Dropped,
        >(Dropped::UnknownPath),
        advance(state, SessionEvent::Frame) == state,
{
}

/// A frame that is no envelope calls for no handler, and the session goes on
/// reading.
pub proof fn lemma_undecodable_frame_is_ignored<A>(
    state: SessionState,
    events: Map<Seq<char>, A>,
    frame: Message,
)
    requires
        decoded(frame) is Err,
    ensures
        dispatched(state, events, frame) is Err,
        advance(state, SessionEvent::Frame) == state,
{
}

/// A handler is called only for a session that is reading, and then it is the
/// one registered under exactly the path of the envelope.
pub proof fn lemma_dispatch_is_exact<A>(
    state: SessionState,
    events: Map<Seq<char>, A>,
    frame: Message,
)
    requires
        dispatched(state, events, frame) is Ok,
    ensures
        state == SessionState::Reading,
        decoded(frame) matches Ok(e) && events.contains_key(e.path) && dispatched(
            state,
            events,
            frame,
        ) == Ok::<(A, Seq<char>), Dropped>((events[e.path], e.payload)),
{
}

/// The session leaves `Reading` for `Closing` when the read side ends and when
/// the pump ends, whichever comes first; what comes second changes nothing.
pub proof fn lemma_either_end_closes(state: SessionState)
    ensures
        advance(state, SessionEvent::PumpEnded) == advance(state, SessionEvent::ReadEnded),
        advance(advance(state, SessionEvent::ReadEnded), SessionEvent::PumpEnded) == advance(
            state,
            SessionEvent::ReadEnded,
        ),
        advance(advance(state, SessionEvent::PumpEnded), SessionEvent::ReadEnded) == advance(
            state,
            SessionEvent::PumpEnded,
        ),
{
}

/// `Closed` is the end: no event leads out of it. And only the event that
/// takes the connection out of the registry leads into it from a state in
/// which the registry holds the connection.
pub proof fn lemma_closed_is_final(state: SessionState, event: SessionEvent)
    ensures
        advance(SessionState::Closed, event) == SessionState::Closed,
        holds_registration(state) && advance(state, event) == SessionState::Closed ==> event
            == SessionEvent::Deregistered,
        !holds_registration(state) && holds_registration(advance(state, event)) ==> state
            == SessionState::Handshaking && event == SessionEvent::Upgraded,
{
}

} // verus!
