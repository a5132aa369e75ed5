use vstd::prelude::*;

verus! {

/// Event: an object specifying to listen for a certain type of
/// event with instructions for how to handle the event.
pub struct Event<A> {
    pub path: String,
    pub action: A,
}

impl<A> Event<A> {
    /// new: Creates a new Event object.
    pub fn new(path: &'static str, action: A) -> (ev: Event<A>)
        ensures
            ev.path@ == path@,
            ev.action == action,
    {
        Event { path: path.to_owned(), action }
    }
}

/// The table that a list of events stands for: each path with the action of
/// the last event in the list that names it.
pub open spec fn table_of<A>(events: Seq<Event<A>>) -> Map<Seq<char>, A>
    decreases events.len(),
{
    if events.len() == 0 {
        Map::empty()
    } else {
        table_of(events.drop_last()).insert(events.last().path@, events.last().action)
    }
}

/// EventMap: maps each path to its associated action. It is built once,
/// before the listener starts, and only read after that.
pub struct EventMap<A> {
    events: Vec<Event<A>>,
}

impl<A> View for EventMap<A> {
    type V = Map<Seq<char>, A>;

    closed spec fn view(&self) -> Map<Seq<char>, A> {
        table_of(self.events@)
    }
}

/// No event from position `from` on names `path`.
spec fn unnamed_from<A>(events: Seq<Event<A>>, from: int, path: Seq<char>) -> bool {
    forall|j: int| from <= j < events.len() ==> events[j].path@ != path
}

/// Where no event names a path, the table has no entry for it.
proof fn lemma_absent<A>(events: Seq<Event<A>>, path: Seq<char>)
    requires
        unnamed_from(events, 0, path),
    ensures
        !table_of(events).contains_key(path),
    decreases events.len(),
{
    if events.len() > 0 {
        assert forall|j: int| 0 <= j < events.drop_last().len() implies events.drop_last()[j].path@
            != path by {
            assert(events.drop_last()[j] == events[j]);
        }
        lemma_absent(events.drop_last(), path);
    }
}

/// The table gives a path the action of the last event that names it.
proof fn lemma_last_wins<A>(events: Seq<Event<A>>, at: int, path: Seq<char>)
    requires
        0 <= at < events.len(),
        events[at].path@ == path,
        unnamed_from(events, at + 1, path),
    ensures
        table_of(events).contains_key(path),
        table_of(events)[path] == events[at].action,
    decreases events.len(),
{
    if at < events.len() - 1 {
        assert(events.drop_last()[at] == events[at]);
        assert forall|j: int| at + 1 <= j < events.drop_last().len() implies events.drop_last()[j].path@
            != path by {
            assert(events.drop_last()[j] == events[j]);
        }
        lemma_last_wins(events.drop_last(), at, path);
    }
}

impl<A> EventMap<A> {
    /// build: the table for a list of events. Where two events name one path,
    /// the later one counts.
    pub fn build(event_list: Vec<Event<A>>) -> (map: EventMap<A>)
        ensures
            map@ == table_of(event_list@),
    {
        EventMap { events: event_list }
    }

    /// lookup: the action registered for exactly this path, if there is one.
    /// Nothing but the whole path matches: no prefix, no pattern.
    pub fn lookup(&self, path: &str) -> (found: Option<&A>)
        ensures
            found.is_some() == self@.contains_key(path@),
            found matches Some(action) ==> *action == self@[path@],
    {
        let wanted = path.to_owned();
        let mut i: usize = self.events.len();
        while i > 0
            invariant
                i <= self.events.len(),
                wanted@ == path@,
                unnamed_from(self.events@, i as int, path@),
            decreases i,
        {
            i = i - 1;
            if self.events[i].path == wanted {
                proof {
                    lemma_last_wins(self.events@, i as int, path@);
                }
                return Some(&self.events[i].action);
            }
        }
        proof {
            lemma_absent(self.events@, path@);
        }
        None
    }
}

} // verus!
