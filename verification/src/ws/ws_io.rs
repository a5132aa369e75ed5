use crate::json::{
    as_str, holds_string, json_member, json_pair_text, json_parse, json_str, json_text, member,
    pair_text, parse, to_text,
};
use crate::ws::channel::{message_text, text_message, text_of};
use crate::ws::event::{table_of, Event, EventMap};
use crate::ws::registry::Registry;
use crate::ws::session::{Session, SessionState};
use crate::ws::ws_error::{ConnectionId, DecodeError};
use serde_json::Value;
use tokio_tungstenite::tungstenite::protocol::Message;
use vstd::prelude::*;

verus! {

/// WsIoMsg: The fundamental unit passed between client and server. Any
/// received package not obeying this struct will be ignored.
#[derive(Debug, Clone, PartialEq, Eq)]
pub struct WsIoMsg {
    path: String,
    payload: String,
}

/// What an envelope holds: the path that selects a handler, and the payload
/// that the handler gets, which the server does not look into.
pub struct Envelope {
    pub path: Seq<char>,
    pub payload: Seq<char>,
}

impl View for WsIoMsg {
    type V = Envelope;

    closed spec fn view(&self) -> Envelope {
        Envelope { path: self.path@, payload: self.payload@ }
    }
}

/// The name of the member that holds the path.
pub open spec fn path_key() -> Seq<char> {
    "path"@
}

/// The name of the member that holds the payload.
pub open spec fn payload_key() -> Seq<char> {
    "payload"@
}

/// The payload that a `payload` member stands for: the characters of a JSON
/// string; for any other value, its compact JSON text. The member is given by
/// its compact text.
pub open spec fn payload_of(found: Seq<char>) -> Seq<char> {
    match json_str(found) {
        Some(s) => s,
        None => found,
    }
}

/// The envelope that a JSON document holds, the document given by its compact
/// text. It needs a member `path` that is a string and a member `payload`;
/// members of other names do not count.
pub open spec fn envelope_of(doc: Seq<char>) -> Result<Envelope, DecodeError> {
    match json_member(doc, path_key()) {
        None => Err(DecodeError::NoPath),
        Some(p) => match json_str(p) {
            None => Err(DecodeError::NoPath),
            Some(path) => match json_member(doc, payload_key()) {
                None => Err(DecodeError::NoPayload),
                Some(q) => Ok(Envelope { path, payload: payload_of(q) }),
            },
        },
    }
}

/// The envelope that a text holds.
pub open spec fn decoded_text(text: Seq<char>) -> Result<Envelope, DecodeError> {
    match json_parse(text) {
        None => Err(DecodeError::Malformed),
        Some(doc) => envelope_of(doc),
    }
}

/// The envelope that a frame holds.
pub open spec fn decoded(frame: Message) -> Result<Envelope, DecodeError> {
    match message_text(frame) {
        None => Err(DecodeError::NotText),
        Some(text) => decoded_text(text),
    }
}

/// The text of an envelope on the wire.
pub open spec fn encoded_text(e: Envelope) -> Seq<char> {
    json_pair_text(path_key(), e.path, payload_key(), e.payload)
}

/// A result of decoding says what the model says: the same envelope, or the
/// same reason.
pub open spec fn agrees(res: Result<WsIoMsg, DecodeError>, model: Result<Envelope, DecodeError>) -> bool {
    match model {
        Ok(e) => res matches Ok(m) && m@ == e,
        Err(why) => res == Err::<WsIoMsg, DecodeError>(why),
    }
}

impl WsIoMsg {
    /// new: the envelope with this path and this payload.
    pub fn new(path: String, payload: String) -> (m: WsIoMsg)
        ensures
            m@ == (Envelope { path: path@, payload: payload@ }),
    {
        WsIoMsg { path, payload }
    }

    /// path: the path that selects the handler.
    pub fn path(&self) -> (p: &String)
        ensures
            p@ == self@.path,
    {
        &self.path
    }

    /// payload: what the handler gets.
    pub fn payload(&self) -> (p: &String)
        ensures
            p@ == self@.payload,
    {
        &self.payload
    }

    /// into_payload: gives the payload away.
    pub fn into_payload(self) -> (p: String)
        ensures
            p@ == self@.payload,
    {
        self.payload
    }

    /// from_json: reads an envelope out of a parsed document.
    pub fn from_json(doc: &Value) -> (res: Result<WsIoMsg, DecodeError>)
        ensures
            agrees(res, envelope_of(json_text(*doc))),
    {
        let path = match member(doc, "path") {
            None => {
                return Err(DecodeError::NoPath);
            },
            Some(p) => match as_str(p) {
                None => {
                    return Err(DecodeError::NoPath);
                },
                Some(s) => s.to_owned(),
            },
        };
        let payload = match member(doc, "payload") {
            None => {
                return Err(DecodeError::NoPayload);
            },
            Some(q) => match as_str(q) {
                Some(s) => s.to_owned(),
                None => to_text(q),
            },
        };
        Ok(WsIoMsg { path, payload })
    }

    /// decode_text: reads an envelope out of the text of a frame.
    pub fn decode_text(text: &str) -> (res: Result<WsIoMsg, DecodeError>)
        ensures
            agrees(res, decoded_text(text@)),
    {
        match parse(text) {
            None => Err(DecodeError::Malformed),
            Some(doc) => WsIoMsg::from_json(&doc),
        }
    }

    /// decode: reads an envelope out of an inbound frame. Only a text frame
    /// that holds a JSON object with a string `path` and a `payload` is one.
    pub fn decode(frame: &Message) -> (res: Result<WsIoMsg, DecodeError>)
        ensures
            agrees(res, decoded(*frame)),
    {
        match text_of(frame) {
            None => Err(DecodeError::NotText),
            Some(text) => WsIoMsg::decode_text(text),
        }
    }

    /// encode_text: writes the envelope as the text of a frame. Reading that
    /// text gives the envelope back.
    pub fn encode_text(&self) -> (text: String)
        ensures
            text@ == encoded_text(self@),
            decoded_text(text@) == Ok::<Envelope, DecodeError>(self@),
    {
        proof {
            reveal_strlit("path");
            reveal_strlit("payload");
            assert("path"@.len() != "payload"@.len());
        }
        let text = pair_text("path", self.path.as_str(), "payload", self.payload.as_str());
        proof {
            lemma_text_with_both_members_decodes(text@, self@);
        }
        text
    }

    /// encode: writes the envelope as a text frame. Decoding that frame gives
    /// the envelope back.
    pub fn encode(&self) -> (frame: Message)
        ensures
            message_text(frame) == Some(encoded_text(self@)),
            decoded(frame) == Ok::<Envelope, DecodeError>(self@),
    {
        text_message(self.encode_text())
    }
}

/// Io: the main socket server instance, without its listener: the registry of
/// the live connections, the table of the events, and the count of the
/// connections accepted so far.
pub struct Io<A> {
    clients: Registry,
    events: EventMap<A>,
    accepted: u64,
}

impl<A> Io<A> {
    /// registry: the registry of the live connections.
    pub closed spec fn registry(&self) -> Registry {
        self.clients
    }

    /// table: the table of the events.
    pub closed spec fn table(&self) -> EventMap<A> {
        self.events
    }

    /// accepted: how many connections were accepted so far.
    pub closed spec fn accepted(&self) -> nat {
        self.accepted as nat
    }

    /// build: sets up the server for a list of events: nobody is connected,
    /// and the table is that of the list.
    pub fn build(event_list: Vec<Event<A>>) -> (io: Io<A>)
        ensures
            io.registry()@ == Map::<ConnectionId, Seq<Message>>::empty(),
            io.table()@ == table_of(event_list@),
            io.accepted() == 0,
    {
        Io { clients: Registry::new(), events: EventMap::build(event_list), accepted: 0 }
    }

    /// events: lends out the table of the events.
    pub fn events(&self) -> (events: &EventMap<A>)
        ensures
            *events == self.table(),
    {
        &self.events
    }

    /// clients: lends out the registry, to be read.
    pub fn clients(&self) -> (clients: &Registry)
        ensures
            *clients == self.registry(),
    {
        &self.clients
    }

    /// clients_mut: lends out the registry, to be changed. Nothing else of the
    /// server changes through it.
    pub fn clients_mut(&mut self) -> (clients: &mut Registry)
        ensures
            *clients == old(self).registry(),
            final(self).registry() == *final(clients),
            final(self).table() == old(self).table(),
            final(self).accepted() == old(self).accepted(),
    {
        &mut self.clients
    }

    /// accept: the session for a connection that the listener just accepted.
    /// Each gets an identity that no session before it had. When the
    /// identities are used up, none is given.
    pub fn accept(&mut self) -> (session: Option<Session>)
        ensures
            final(self).registry() == old(self).registry(),
            final(self).table() == old(self).table(),
            session.is_some() == (old(self).accepted() < u64::MAX),
            session matches Some(s) ==> s.id() == old(self).accepted() && s.state()
                == SessionState::Handshaking,
            session is Some ==> final(self).accepted() == old(self).accepted() + 1,
            session is None ==> final(self).accepted() == old(self).accepted(),
    {
        if self.accepted < u64::MAX {
            let id = self.accepted;
            self.accepted = self.accepted + 1;
            Some(Session::new(id))
        } else {
            None
        }
    }
}

/// The round trip, as far as it is this library's: a text in which the parser
/// finds a string member `path` and a string member `payload` decodes to the
/// envelope of those two, whatever else it holds. `encode_text` writes such a
/// text, so decoding what it wrote gives the envelope back.
pub proof fn lemma_text_with_both_members_decodes(text: Seq<char>, e: Envelope)
    requires
        holds_string(text, path_key(), e.path),
        holds_string(text, payload_key(), e.payload),
    ensures
        decoded_text(text) == Ok::<Envelope, DecodeError>(e),
{
}

/// A frame lacking `path` or `payload` is no envelope: whatever else the
/// document holds, decoding fails, and with the reason that names the member.
pub proof fn lemma_decode_needs_path_and_payload(
    frame: Message,
    text: Seq<char>,
    doc: Seq<char>,
)
    requires
        message_text(frame) == Some(text),
        json_parse(text) == Some(doc),
    ensures
        json_member(doc, path_key()) is None ==> decoded(frame) == Err::<Envelope, DecodeError>(
            DecodeError::NoPath,
        ),
        json_member(doc, payload_key()) is None ==> decoded(frame) is Err,
        decoded(frame) is Ok ==> json_member(doc, path_key()) is Some && json_member(
            doc,
            payload_key(),
        ) is Some,
{
}

} // verus!
