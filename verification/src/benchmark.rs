use crate::json::{
    as_i64, as_str, json_i64, json_member, json_parse, json_quote, json_str, json_text, member,
    parse, string_value, to_text,
};
use crate::ws::channel::{message_text, text_message};
use tokio_tungstenite::tungstenite::protocol::Message;
use crate::ws::registry::{send_outcome, Registry};
use crate::ws::socket::{Socket, To};
use crate::ws::ws_error::WsError;
use serde_json::Value;
use vstd::prelude::*;

verus! {

/// Counters: the two numbers that the store keeps for one id.
#[derive(Debug, Clone, Copy, PartialEq, Eq, Structural)]
pub struct Counters {
    pub current: i32,
    pub to: i32,
}

/// Payload: what a benchmark message carries, and what is sent back.
#[derive(Debug, Clone, PartialEq, Eq)]
pub struct Payload {
    pub id: String,
    pub counters: Counters,
}

/// What a payload holds.
pub struct Record {
    pub id: Seq<char>,
    pub counters: Counters,
}

impl View for Payload {
    type V = Record;

    open spec fn view(&self) -> Record {
        Record { id: self.id@, counters: self.counters }
    }
}

/// The character of one decimal digit.
pub open spec fn digit(d: nat) -> char {
    "0123456789"@[d as int]
}

/// A natural number in decimal, without leading zeros.
pub open spec fn digits(n: nat) -> Seq<char>
    decreases n,
{
    if n < 10 {
        seq![digit(n)]
    } else {
        digits(n / 10).push(digit(n % 10))
    }
}

/// An integer in decimal, as JSON writes it.
pub open spec fn decimal(i: int) -> Seq<char> {
    if i < 0 {
        seq!['-'] + digits((-i) as nat)
    } else {
        digits(i as nat)
    }
}

/// The JSON text of a payload: `id` first, then `counters` with `current` and
/// `to`, nothing between the tokens.
pub open spec fn record_text(r: Record) -> Seq<char> {
    "{\"id\":"@ + json_quote(r.id) + ",\"counters\":{\"current\":"@ + decimal(
        r.counters.current as int,
    ) + ",\"to\":"@ + decimal(r.counters.to as int) + "}}"@
}

/// The member `key` of a document where it is an integer that fits 32 signed
/// bits. Here and below a document is given by its compact text.
pub open spec fn small_int_member(doc: Seq<char>, key: Seq<char>) -> Option<i32> {
    match json_member(doc, key) {
        None => None,
        Some(found) => match json_i64(found) {
            None => None,
            Some(n) => if i32::MIN <= n <= i32::MAX {
                Some(n as i32)
            } else {
                None
            },
        },
    }
}

/// The counters that a JSON document holds: its members `current` and `to`.
pub open spec fn counters_of(doc: Seq<char>) -> Option<Counters> {
    match (small_int_member(doc, "current"@), small_int_member(doc, "to"@)) {
        (Some(current), Some(to)) => Some(Counters { current, to }),
        _ => None,
    }
}

/// The payload that a JSON document holds: a string `id` and the counters
/// under `counters`. Members of other names do not count.
pub open spec fn record_of(doc: Seq<char>) -> Option<Record> {
    match json_member(doc, "id"@) {
        None => None,
        Some(found) => match json_str(found) {
            None => None,
            Some(id) => match json_member(doc, "counters"@) {
                None => None,
                Some(inner) => match counters_of(inner) {
                    None => None,
                    Some(counters) => Some(Record { id, counters }),
                },
            },
        },
    }
}

/// The payload that a message holds.
pub open spec fn record_in(message: Seq<char>) -> Option<Record> {
    match json_parse(message) {
        None => None,
        Some(doc) => record_of(doc),
    }
}

/// What was read out of a document is what the document holds.
pub open spec fn reads(found: Option<Payload>, model: Option<Record>) -> bool {
    match model {
        Some(r) => found matches Some(p) && p@ == r,
        None => found is None,
    }
}

/// The step is the one that the message calls for: to put the counters of its
/// payload under the key of its id, or, where it holds no payload, nothing.
pub open spec fn asks_for(step: StoreStep, model: Option<Record>) -> bool {
    match model {
        Some(r) => step matches StoreStep::Put { key, counters } && key@ == r.id && counters
            == r.counters,
        None => step is Dropped,
    }
}

/// What the handler asks of the store for one message.
#[derive(Debug, Clone, PartialEq, Eq)]
pub enum StoreStep {
    /// The message holds no payload: nothing is stored, nothing is answered.
    Dropped,
    /// Put the counters under the key, then get what the key holds.
    Put { key: String, counters: Counters },
}

fn digit_text(d: u32) -> (s: &'static str)
    requires
        d < 10,
    ensures
        s@ == seq![digit(d as nat)],
{
    proof {
        reveal_strlit("0123456789");
    }
    let s = "0123456789".substring_char(d as usize, d as usize + 1);
    assert(s@ =~= seq![digit(d as nat)]);
    s
}

/// decimal_text: writes an integer in decimal.
pub fn decimal_text(i: i32) -> (s: String)
    ensures
        s@ == decimal(i as int),
{
    let size: u32 = if i < 0 {
        (-(i as i64)) as u32
    } else {
        i as u32
    };
    let mut rest: u32 = size / 10;
    let mut out = String::from_str(digit_text(size % 10));
    while rest > 0
        invariant
            digits(size as nat) == (if rest > 0 {
                digits(rest as nat)
            } else {
                Seq::<char>::empty()
            }) + out@,
        decreases rest,
    {
        let head = String::from_str(digit_text(rest % 10));
        proof {
            assert(digits(rest as nat) =~= (if rest / 10 > 0 {
                digits((rest / 10) as nat)
            } else {
                Seq::<char>::empty()
            }) + head@);
        }
        out = head.concat(out.as_str());
        rest = rest / 10;
    }
    if i < 0 {
        proof {
            reveal_strlit("-");
        }
        let signed = String::from_str("-").concat(out.as_str());
        assert(signed@ =~= decimal(i as int));
        signed
    } else {
        assert(out@ =~= decimal(i as int));
        out
    }
}

fn small_int(doc: &Value, key: &str) -> (found: Option<i32>)
    ensures
        found == small_int_member(json_text(*doc), key@),
{
    match member(doc, key) {
        None => None,
        Some(number) => match as_i64(number) {
            None => None,
            Some(n) => if -2147483648 <= n && n <= 2147483647 {
                Some(n as i32)
            } else {
                None
            },
        },
    }
}

impl Counters {
    /// from_json: reads the counters out of a parsed document.
    pub fn from_json(doc: &Value) -> (found: Option<Counters>)
        ensures
            found == counters_of(json_text(*doc)),
    {
        let current = small_int(doc, "current");
        let to = small_int(doc, "to");
        match (current, to) {
            (Some(current), Some(to)) => Some(Counters { current, to }),
            _ => None,
        }
    }
}

impl Payload {
    /// redis_key: the key under which the store keeps the counters of an id.
    /// It is the id itself; whoever needs the key asks here, so the format
    /// can change in one place.
    pub fn redis_key(id: &str) -> (key: &str)
        ensures
            key@ == id@,
    {
        id
    }

    /// from_store: the payload for what the store holds under the key of `id`.
    pub fn from_store(id: &str, counters: Counters) -> (p: Payload)
        ensures
            p@ == (Record { id: id@, counters }),
    {
        Payload { id: Payload::redis_key(id).to_owned(), counters }
    }

    /// from_json: reads a payload out of a parsed document.
    pub fn from_json(doc: &Value) -> (found: Option<Payload>)
        ensures
            reads(found, record_of(json_text(*doc))),
    {
        let id = match member(doc, "id") {
            None => {
                return None;
            },
            Some(found) => match as_str(found) {
                None => {
                    return None;
                },
                Some(s) => s.to_owned(),
            },
        };
        match member(doc, "counters") {
            None => None,
            Some(inner) => match Counters::from_json(inner) {
                None => None,
                Some(counters) => Some(Payload { id, counters }),
            },
        }
    }

    /// to_json: writes the payload as JSON text.
    pub fn to_json(&self) -> (text: String)
        ensures
            text@ == record_text(self@),
    {
        let id = to_text(&string_value(self.id.as_str()));
        let current = decimal_text(self.counters.current);
        let to = decimal_text(self.counters.to);
        let mut text = String::from_str("{\"id\":");
        text.append(id.as_str());
        text.append(",\"counters\":{\"current\":");
        text.append(current.as_str());
        text.append(",\"to\":");
        text.append(to.as_str());
        text.append("}}");
        text
    }
}

/// handle_message: Our benchmark message handler, up to the store. Receives a
/// message and parses it. A message that holds a payload is to be put into
/// the store under the key of its id; any other is dropped.
pub fn handle_message(message: &str) -> (step: StoreStep)
    ensures
        asks_for(step, record_in(message@)),
{
    match parse(message) {
        None => StoreStep::Dropped,
        Some(doc) => match Payload::from_json(&doc) {
            None => StoreStep::Dropped,
            Some(payload) => StoreStep::Put {
                key: Payload::redis_key(payload.id.as_str()).to_owned(),
                counters: payload.counters,
            },
        },
    }
}

/// answer: Our benchmark message handler, from the store on. Takes what the
/// store gave back for the key, stringifies it, and returns it to the client
/// the message came from, and to nobody else. Where the store gave nothing
/// back, nothing is sent.
pub fn answer(socket: &Socket, clients: &mut Registry, id: &str, fetched: Option<Counters>) -> (res:
    Result<(), WsError>)
    ensures
        fetched is None ==> res is Ok && final(clients)@ == old(clients)@,
        fetched matches Some(counters) ==> exists|reply: Message|
            message_text(reply) == Some(record_text((Record { id: id@, counters })))
                && #[trigger] send_outcome(
                old(clients)@,
                final(clients)@,
                socket.address(),
                reply,
                res,
            ),
{
    match fetched {
        None => Ok(()),
        Some(counters) => {
            let reply = text_message(Payload::from_store(id, counters).to_json());
            socket.send(clients, reply, To::Origin)
        },
    }
}

} // verus!
