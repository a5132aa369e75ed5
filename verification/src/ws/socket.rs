use crate::ws::registry::{after_broadcast, send_outcome, Outboxes, Registry};
use crate::ws::ws_error::{ConnectionId, WsError};
use tokio_tungstenite::tungstenite::protocol::Message;
use vstd::prelude::*;

verus! {

/// To: Who to send a WS message to.
/// Origin: Send to the client we just received the message from.
/// NonOrigin: Send to everyone except the client we just received the message from.
/// All: Send to everyone connected to the server.
#[derive(Debug, Clone, Copy, PartialEq, Eq, Structural)]
pub enum To {
    Origin,
    NonOrigin,
    All,
}

/// Socket: the handle a handler gets for the connection whose message it is
/// handling. It names that connection and owns nothing: the registry is lent
/// to each `send`.
#[derive(Debug, Clone, Copy)]
pub struct Socket {
    address: ConnectionId,
}

/// The connection that a scope leaves out of a broadcast from `origin`.
pub open spec fn spared(origin: ConnectionId, to: To) -> Option<ConnectionId> {
    match to {
        To::NonOrigin => Some(origin),
        _ => None,
    }
}

/// The connections that `send` reports as not reached.
pub open spec fn not_reached(res: Result<(), WsError>) -> Seq<ConnectionId> {
    match res {
        Err(WsError::FailedToSend(failed)) => failed@,
        _ => Seq::empty(),
    }
}

/// What a broadcast may leave behind: the same connections, the message at the
/// end of every outbox but the spared one and those reported, and `Ok` exactly
/// where none is reported.
pub open spec fn broadcast_outcome(
    before: Outboxes,
    after: Outboxes,
    except: Option<ConnectionId>,
    frame: Message,
    res: Result<(), WsError>,
) -> bool {
    let failed = not_reached(res);
    &&& after.dom() == before.dom()
    &&& res matches Err(e) ==> e is FailedToSend
    &&& res is Ok <==> failed.len() == 0
    &&& failed.no_duplicates()
    &&& forall|id: ConnectionId|
        failed.contains(id) ==> before.contains_key(id) && except != Some(id)
    &&& forall|id: ConnectionId|
        before.contains_key(id) ==> #[trigger] after[id] == after_broadcast(
            before,
            except,
            failed,
            frame,
            id,
        )
}

impl Socket {
    /// new: creates a new Socket object
    pub fn new(address: ConnectionId) -> (s: Socket)
        ensures
            s.address() == address,
    {
        Socket { address }
    }

    /// The connection this handle stands for.
    pub closed spec fn spec_address(&self) -> ConnectionId {
        self.address
    }

    /// address: the connection this handle stands for.
    #[verifier::when_used_as_spec(spec_address)]
    pub fn address(&self) -> (id: ConnectionId)
        ensures
            id == self.address(),
    {
        self.address
    }

    /// send: sends a message to everyone connected to the server matching
    /// the specified "To" scope. `Origin` gives back what the registry answers
    /// for this connection alone. The two broadcasts try every recipient; if
    /// some did not take the message, the error lists them.
    pub fn send(&self, clients: &mut Registry, msg: Message, to: To) -> (res: Result<(), WsError>)
        ensures
            to == To::Origin ==> send_outcome(
                old(clients)@,
                final(clients)@,
                self.address(),
                msg,
                res,
            ),
            to != To::Origin ==> broadcast_outcome(
                old(clients)@,
                final(clients)@,
                spared(self.address(), to),
                msg,
                res,
            ),
    {
        let failed = match to {
            To::Origin => {
                return clients.send_to(self.address, &msg);
            },
            To::NonOrigin => clients.broadcast(Some(self.address), &msg),
            To::All => clients.broadcast(None, &msg),
        };
        if failed.len() > 0 {
            Err(WsError::FailedToSend(failed))
        } else {
            Ok(())
        }
    }
}

/// A message that a connection sends to `Origin` while it is registered goes
/// to the end of its own outbox, behind all that it was sent before, unless
/// its queue refuses it, which the result then says; and it goes to no other
/// connection.
pub proof fn lemma_origin_reaches_origin_alone(
    before: Outboxes,
    after: Outboxes,
    origin: ConnectionId,
    frame: Message,
    res: Result<(), WsError>,
)
    requires
        before.contains_key(origin),
        send_outcome(before, after, origin, frame, res),
    ensures
        after.dom() == before.dom(),
        res is Ok ==> after[origin] == before[origin].push(frame),
        res is Err ==> res == Err::<(), WsError>(WsError::SendError(origin)) && after[origin]
            == before[origin],
        forall|other: ConnectionId|
            other != origin && before.contains_key(other) ==> after[other] == before[other],
{
    if res is Ok {
        assert(after.dom() =~= before.dom());
    }
}

/// Two messages that a connection sends to `Origin`, one after the other, are
/// in its outbox in the order in which they were sent.
pub proof fn lemma_origin_keeps_order(
    before: Outboxes,
    between: Outboxes,
    after: Outboxes,
    origin: ConnectionId,
    first: Message,
    second: Message,
    first_res: Result<(), WsError>,
    second_res: Result<(), WsError>,
)
    requires
        before.contains_key(origin),
        send_outcome(before, between, origin, first, first_res),
        send_outcome(between, after, origin, second, second_res),
        first_res is Ok,
        second_res is Ok,
    ensures
        after[origin] == before[origin].push(first).push(second),
        forall|other: ConnectionId|
            other != origin && before.contains_key(other) ==> after[other] == before[other],
{
}

/// A `NonOrigin` broadcast leaves the sender's outbox as it was, and puts the
/// message at the end of the outbox of every other registered connection that
/// the result does not report; where the result is `Ok`, that is every other
/// one.
pub proof fn lemma_non_origin_reaches_the_others(
    before: Outboxes,
    after: Outboxes,
    origin: ConnectionId,
    frame: Message,
    res: Result<(), WsError>,
)
    requires
        before.contains_key(origin),
        broadcast_outcome(before, after, spared(origin, To::NonOrigin), frame, res),
    ensures
        after.dom() == before.dom(),
        after[origin] == before[origin],
        !not_reached(res).contains(origin),
        forall|other: ConnectionId|
            other != origin && before.contains_key(other) && !not_reached(res).contains(other)
                ==> after[other] == before[other].push(frame),
        forall|other: ConnectionId|
            not_reached(res).contains(other) ==> before.contains_key(other) && after[other]
                == before[other],
        res is Ok ==> forall|other: ConnectionId|
            other != origin && before.contains_key(other) ==> after[other] == before[other].push(
                frame,
            ),
{
    assert(after[origin] == after_broadcast(before, Some(origin), not_reached(res), frame, origin));
    assert forall|other: ConnectionId| before.contains_key(other) implies after[other]
        == after_broadcast(before, Some(origin), not_reached(res), frame, other) by {}
}

/// An `All` broadcast puts the message at the end of the outbox of every
/// registered connection that the result does not report, the sender's among
/// them; where the result is `Ok`, that is every one.
pub proof fn lemma_all_reaches_everyone(
    before: Outboxes,
    after: Outboxes,
    origin: ConnectionId,
    frame: Message,
    res: Result<(), WsError>,
)
    requires
        broadcast_outcome(before, after, spared(origin, To::All), frame, res),
    ensures
        after.dom() == before.dom(),
        forall|id: ConnectionId|
            before.contains_key(id) && !not_reached(res).contains(id) ==> after[id]
                == before[id].push(frame),
        forall|id: ConnectionId|
            not_reached(res).contains(id) ==> before.contains_key(id) && after[id] == before[id],
        res is Ok ==> forall|id: ConnectionId|
            before.contains_key(id) ==> after[id] == before[id].push(frame),
{
    assert forall|id: ConnectionId| before.contains_key(id) implies after[id] == after_broadcast(
        before,
        None,
        not_reached(res),
        frame,
        id,
    ) by {}
}

} // verus!
