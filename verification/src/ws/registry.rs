use crate::ws::channel::{offer, Tx};
use crate::ws::ws_error::{ConnectionId, WsError};
use std::collections::HashMap;
use tokio_tungstenite::tungstenite::protocol::Message;
use vstd::prelude::*;

verus! {

broadcast use vstd::std_specs::hash::group_hash_axioms;

/// The outboxes of the live connections: for each registered id, the
/// messages that the registry has put into its outbound queue since it was
/// registered, oldest first. The queue hands them to the task that drains it
/// in that order, and that task writes them to the peer.
pub type Outboxes = Map<ConnectionId, Seq<Message>>;

/// Registry: the live connections, each with the sending half of its
/// outbound queue.
pub struct Registry {
    clients: HashMap<ConnectionId, Tx>,
    taken: Ghost<Outboxes>,
}

impl View for Registry {
    type V = Outboxes;

    closed spec fn view(&self) -> Outboxes {
        Map::new(|id: ConnectionId| self.clients@.contains_key(id), |id: ConnectionId| self.taken@[id])
    }
}

/// What a broadcast leaves in the outbox of `id`: the message is appended for
/// every connection but the excepted one and those whose queue refused it.
pub open spec fn after_broadcast(
    before: Outboxes,
    except: Option<ConnectionId>,
    failed: Seq<ConnectionId>,
    frame: Message,
    id: ConnectionId,
) -> Seq<Message> {
    if except == Some(id) || failed.contains(id) {
        before[id]
    } else {
        before[id].push(frame)
    }
}

/// What offering a message to the queue of `id` may leave behind: where `id`
/// is not registered, `ClientNotFound` and nothing changed; where its queue
/// took the message, `Ok` and the message at the end of its outbox; where the
/// queue refused it, `SendError` with the id and nothing changed. No other
/// outbox changes in any case.
pub open spec fn send_outcome(
    before: Outboxes,
    after: Outboxes,
    id: ConnectionId,
    frame: Message,
    res: Result<(), WsError>,
) -> bool {
    if !before.contains_key(id) {
        res == Err::<(), WsError>(WsError::ClientNotFound) && after == before
    } else if res is Ok {
        after == before.insert(id, before[id].push(frame))
    } else {
        res == Err::<(), WsError>(WsError::SendError(id)) && after == before
    }
}

impl Registry {
    /// new: a registry with no connection in it.
    pub fn new() -> (r: Registry)
        ensures
            r@ == Outboxes::empty(),
    {
        let r = Registry { clients: HashMap::new(), taken: Ghost(Map::empty()) };
        assert(r@ =~= Outboxes::empty());
        r
    }

    /// len: how many connections are registered.
    pub fn len(&self) -> (n: usize)
        ensures
            n == self@.dom().len(),
    {
        assert(self@.dom() =~= self.clients@.dom());
        self.clients.len()
    }

    /// contains: whether `id` is registered.
    pub fn contains(&self, id: ConnectionId) -> (b: bool)
        ensures
            b == self@.contains_key(id),
    {
        self.clients.contains_key(&id)
    }

    /// register: enters `id` with the sending half of its queue. An id that is
    /// already there gets the new queue in place of the old one, and starts
    /// again with an empty outbox: the last registration wins.
    pub fn register(&mut self, id: ConnectionId, sink: Tx)
        ensures
            final(self)@ == old(self)@.insert(id, Seq::empty()),
    {
        self.clients.insert(id, sink);
        self.taken = Ghost(self.taken@.insert(id, Seq::empty()));
        assert(self@ =~= old(self)@.insert(id, Seq::empty()));
    }

    /// deregister: takes `id` out. Where it is not there, nothing changes.
    pub fn deregister(&mut self, id: ConnectionId)
        ensures
            final(self)@ == old(self)@.remove(id),
    {
        self.clients.remove(&id);
        assert(self@ =~= old(self)@.remove(id));
    }

    /// settle: books the answer of the queue of `id` to one offer. A message
    /// that was taken goes to the end of the outbox; one that was refused is
    /// reported with the id and leaves no trace.
    fn settle(&mut self, id: ConnectionId, msg: &Message, taken: bool) -> (res: Result<
        (),
        WsError,
    >)
        requires
            old(self)@.contains_key(id),
        ensures
            taken ==> res is Ok && final(self)@ == old(self)@.insert(
                id,
                old(self)@[id].push(*msg),
            ),
            !taken ==> res == Err::<(), WsError>(WsError::SendError(id)) && final(self)@ == old(
                self,
            )@,
    {
        if taken {
            self.taken = Ghost(self.taken@.insert(id, self.taken@[id].push(*msg)));
            assert(self@ =~= old(self)@.insert(id, old(self)@[id].push(*msg)));
            Ok(())
        } else {
            Err(WsError::SendError(id))
        }
    }

    /// send_to: offers one message to the queue of `id`. The offer never
    /// waits. An id that is not registered gives `ClientNotFound`; a queue
    /// that refuses the message gives `SendError` with the id. Only a message
    /// that was taken shows in the outbox.
    pub fn send_to(&mut self, id: ConnectionId, msg: &Message) -> (res: Result<(), WsError>)
        ensures
            send_outcome(old(self)@, final(self)@, id, *msg, res),
    {
        let taken = match self.clients.get(&id) {
            None => {
                return Err(WsError::ClientNotFound);
            },
            Some(sink) => offer(sink, msg),
        };
        self.settle(id, msg, taken)
    }

    /// broadcast: offers one message to the queue of every registered
    /// connection but `except`, each offer on its own: a queue that refuses
    /// the message stops nothing, and its id goes into the list that is
    /// returned. The list names no id twice; its order is that in which the
    /// map was walked, which is not fixed.
    pub fn broadcast(&mut self, except: Option<ConnectionId>, msg: &Message) -> (failed: Vec<
        ConnectionId,
    >)
        ensures
            final(self)@.dom() == old(self)@.dom(),
            failed@.no_duplicates(),
            forall|id: ConnectionId|
                failed@.contains(id) ==> old(self)@.contains_key(id) && except != Some(id),
            forall|id: ConnectionId|
                old(self)@.contains_key(id) ==> #[trigger] final(self)@[id] == after_broadcast(
                    old(self)@,
                    except,
                    failed@,
                    *msg,
                    id,
                ),
    {
        let mut failed: Vec<ConnectionId> = Vec::new();
        let ghost mut reached: Set<ConnectionId> = Set::empty();
        for entry in it: self.clients.iter()
            invariant
                it.seq().no_duplicates(),
                forall|j: int|
                    0 <= j < it.seq().len() ==> #[trigger] self.clients@.contains_key(
                        *it.seq()[j].0,
                    ) && self.clients@[*it.seq()[j].0] == *it.seq()[j].1,
                failed@.no_duplicates(),
                forall|id: ConnectionId|
                    failed@.contains(id) ==> self.clients@.contains_key(id) && except != Some(id),
                forall|id: ConnectionId|
                    reached.contains(id) ==> self.clients@.contains_key(id) && except != Some(id)
                        && !failed@.contains(id),
                forall|j: int|
                    0 <= j < it.index() ==> except == Some(*it.seq()[j].0) || failed@.contains(
                        *it.seq()[j].0,
                    ) || reached.contains(*it.seq()[j].0),
                forall|j: int|
                    it.index() <= j < it.seq().len() ==> !failed@.contains(*it.seq()[j].0)
                        && !reached.contains(*it.seq()[j].0),
        {
            let id = *entry.0;
            let ghost at = it.index();
            let ghost before = failed@;
            proof {
                assert(self.clients@.contains_key(*it.seq()[at].0));
                // The map has one entry per id, so no other position holds this id.
                assert forall|j: int| 0 <= j < it.seq().len() && j != at implies *it.seq()[j].0
                    != id by {
                    if *it.seq()[j].0 == id {
                        assert(self.clients@.contains_key(*it.seq()[j].0));
                        assert(it.seq()[j] == it.seq()[at]);
                    }
                }
            }
            let spared = match except {
                Some(other) => other == id,
                None => false,
            };
            if !spared {
                if offer(entry.1, msg) {
                    proof {
                        reached = reached.insert(id);
                    }
                } else {
                    failed.push(id);
                }
            }
            proof {
                assert(failed@ == before || failed@ == before.push(id));
                assert forall|x: ConnectionId| failed@.contains(x) implies before.contains(x) || (x
                    == id && !spared) by {
                    let k = choose|k: int| 0 <= k < failed@.len() && failed@[k] == x;
                    if k < before.len() {
                        assert(before[k] == x);
                    }
                }
                assert forall|x: ConnectionId| before.contains(x) implies failed@.contains(x) by {
                    let k = choose|k: int| 0 <= k < before.len() && before[k] == x;
                    assert(failed@[k] == x);
                }
                if failed@.len() > before.len() {
                    assert(failed@[before.len() as int] == id);
                }
                assert forall|x: ConnectionId| failed@.contains(x) implies self.clients@.contains_key(
                    x,
                ) && except != Some(x) by {
                    if !before.contains(x) {
                        assert(x == id && !spared);
                    }
                }
            }
        }
        self.taken = Ghost(
            Map::new(
                |id: ConnectionId| true,
                |id: ConnectionId|
                    if reached.contains(id) {
                        self.taken@[id].push(*msg)
                    } else {
                        self.taken@[id]
                    },
            ),
        );
        assert(self@.dom() =~= old(self)@.dom());
        failed
    }
}

/// Deregistration is idempotent: taking out an id that is not there changes
/// nothing, so taking an id out twice leaves what taking it out once leaves.
pub proof fn lemma_deregister_idempotent(before: Outboxes, id: ConnectionId)
    ensures
        !before.contains_key(id) ==> before.remove(id) == before,
        before.remove(id).remove(id) == before.remove(id),
{
    if !before.contains_key(id) {
        assert(before.remove(id) =~= before);
    }
    assert(before.remove(id).remove(id) =~= before.remove(id));
}

/// Registering an id and taking it out again leaves the registry as it was
/// where the id was not there before.
pub proof fn lemma_register_then_deregister(before: Outboxes, id: ConnectionId)
    requires
        !before.contains_key(id),
    ensures
        before.insert(id, Seq::empty()).remove(id) == before,
{
    assert(before.insert(id, Seq::empty()).remove(id) =~= before);
}

} // verus!
