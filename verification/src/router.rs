use crate::dispatch::{outcome, transition, Effect};
use crate::event::{ConversationState, InboundEvent, StateView};
use vstd::prelude::*;

verus! {

/// One conversation that the router has seen, with its state.
struct Session {
    id: String,
    state: ConversationState,
}

/// The sessions as the contracts see them: each conversation with its state.
spec fn entries_of(sessions: Seq<Session>) -> Seq<(Seq<char>, StateView)> {
    Seq::new(sessions.len(), |i: int| (sessions[i].id@, sessions[i].state@))
}

/// The entry at `i` is the one of conversation `id`.
spec fn holds(entries: Seq<(Seq<char>, StateView)>, i: int, id: Seq<char>) -> bool {
    0 <= i < entries.len() && entries[i].0 == id
}

/// No conversation has two entries.
spec fn distinct(entries: Seq<(Seq<char>, StateView)>) -> bool {
    forall|i: int, j: int| 0 <= i < j < entries.len() ==> entries[i].0 != entries[j].0
}

/// The map that a list of entries stands for.
spec fn table(entries: Seq<(Seq<char>, StateView)>) -> Map<Seq<char>, StateView> {
    Map::new(
        |id: Seq<char>| exists|i: int| holds(entries, i, id),
        |id: Seq<char>| entries[choose|i: int| holds(entries, i, id)].1,
    )
}

/// In a list without doubles, each entry gives the state of its conversation.
proof fn lemma_table_at(entries: Seq<(Seq<char>, StateView)>, i: int)
    requires
        distinct(entries),
        0 <= i < entries.len(),
    ensures
        table(entries).dom().contains(entries[i].0),
        table(entries)[entries[i].0] == entries[i].1,
{
    let id = entries[i].0;
    assert(holds(entries, i, id));
    let k = choose|k: int| holds(entries, k, id);
    assert(k == i);
}

/// A list without doubles stands for as many conversations as it is long.
proof fn lemma_table_size(entries: Seq<(Seq<char>, StateView)>)
    requires
        distinct(entries),
    ensures
        table(entries).dom().finite(),
        table(entries).dom().len() == entries.len(),
    decreases entries.len(),
{
    if entries.len() == 0 {
        assert(table(entries).dom() =~= Set::<Seq<char>>::empty());
    } else {
        let rest = entries.drop_last();
        let last = entries.last().0;
        lemma_table_size(rest);
        assert(!table(rest).dom().contains(last)) by {
            if table(rest).dom().contains(last) {
                let i = choose|i: int| holds(rest, i, last);
                assert(entries[i].0 == entries[entries.len() - 1].0);
            }
        }
        assert(table(entries).dom() =~= table(rest).dom().insert(last)) by {
            assert forall|id: Seq<char>| table(entries).dom().contains(id) implies table(
                rest,
            ).dom().insert(last).contains(id) by {
                let i = choose|i: int| holds(entries, i, id);
                if i < entries.len() - 1 {
                    assert(holds(rest, i, id));
                }
            }
            assert forall|id: Seq<char>| table(rest).dom().insert(last).contains(
                id,
            ) implies table(entries).dom().contains(id) by {
                if id == last {
                    assert(holds(entries, entries.len() - 1, id));
                } else {
                    let i = choose|i: int| holds(rest, i, id);
                    assert(holds(entries, i, id));
                }
            }
        }
    }
}

/// Replacing the state of an entry replaces the state of its conversation.
proof fn lemma_table_update(entries: Seq<(Seq<char>, StateView)>, i: int, state: StateView)
    requires
        distinct(entries),
        0 <= i < entries.len(),
    ensures
        distinct(entries.update(i, (entries[i].0, state))),
        table(entries.update(i, (entries[i].0, state))) == table(entries).insert(
            entries[i].0,
            state,
        ),
{
    let after = entries.update(i, (entries[i].0, state));
    let wanted = table(entries).insert(entries[i].0, state);
    assert forall|k: int, id: Seq<char>| holds(after, k, id) == holds(entries, k, id) by {}
    assert(distinct(after));
    assert forall|id: Seq<char>| table(after).dom().contains(id) == wanted.dom().contains(id) by {
        if table(after).dom().contains(id) {
            let k = choose|k: int| holds(after, k, id);
            assert(holds(entries, k, id));
        }
        if wanted.dom().contains(id) {
            if id == entries[i].0 {
                assert(holds(after, i, id));
            } else {
                let k = choose|k: int| holds(entries, k, id);
                assert(holds(after, k, id));
            }
        }
    }
    assert forall|id: Seq<char>| table(after).dom().contains(id) implies table(after)[id]
        == wanted[id] by {
        let k = choose|k: int| holds(after, k, id);
        assert(holds(entries, k, id));
        lemma_table_at(entries, k);
        lemma_table_at(after, k);
    }
    assert(table(after) =~= wanted);
}

/// Adding an entry for a conversation that has none adds that conversation.
proof fn lemma_table_push(entries: Seq<(Seq<char>, StateView)>, id: Seq<char>, state: StateView)
    requires
        distinct(entries),
        forall|i: int| !holds(entries, i, id),
    ensures
        distinct(entries.push((id, state))),
        !table(entries).dom().contains(id),
        table(entries.push((id, state))) == table(entries).insert(id, state),
{
    let after = entries.push((id, state));
    let n = entries.len() as int;
    assert(distinct(after)) by {
        assert forall|i: int, j: int| 0 <= i < j < after.len() implies after[i].0
            != after[j].0 by {
            if j == n {
                assert(!holds(entries, i, id));
            }
        }
    }
    let wanted = table(entries).insert(id, state);
    assert(holds(after, n, id));
    lemma_table_at(after, n);
    assert forall|other: Seq<char>| table(after).dom().contains(other) == wanted.dom().contains(
        other,
    ) by {
        if table(after).dom().contains(other) && other != id {
            let k = choose|k: int| holds(after, k, other);
            assert(holds(entries, k, other));
        }
        if table(entries).dom().contains(other) {
            let k = choose|k: int| holds(entries, k, other);
            assert(holds(after, k, other));
        }
    }
    assert forall|other: Seq<char>| table(after).dom().contains(other) implies table(after)[other]
        == wanted[other] by {
        if other != id {
            let k = choose|k: int| holds(after, k, other);
            assert(holds(entries, k, other));
            lemma_table_at(entries, k);
            lemma_table_at(after, k);
        }
    }
    assert(table(after) =~= wanted);
}

/// The router: it owns the state of every conversation and applies the
/// routing table to each message. A conversation that it has not seen yet is
/// at `Start`.
pub struct Router {
    sessions: Vec<Session>,
}

impl Router {
    /// The sessions as the contracts see them.
    spec fn entries(self) -> Seq<(Seq<char>, StateView)> {
        entries_of(self.sessions@)
    }

    /// Each conversation has exactly one session, and none is stored as
    /// cancelled.
    #[verifier::type_invariant]
    spec fn well_formed(self) -> bool {
        &&& distinct(self.entries())
        &&& forall|i: int|
            0 <= i < self.entries().len() ==> !(#[trigger] self.entries()[i].1 is Terminal)
    }

    /// The conversations seen so far, each with its one state.
    pub closed spec fn view(&self) -> Map<Seq<char>, StateView> {
        table(self.entries())
    }

    /// The state of a conversation, seen or not.
    pub open spec fn state_at(&self, id: Seq<char>) -> StateView {
        if self@.dom().contains(id) {
            self@[id]
        } else {
            StateView::Start
        }
    }

    /// A router that has seen no conversation.
    pub fn new() -> (router: Self)
        ensures
            router@ == Map::<Seq<char>, StateView>::empty(),
    {
        let router = Router { sessions: Vec::new() };
        assert(router@ =~= Map::<Seq<char>, StateView>::empty());
        router
    }

    /// Where the session of `id` stands, if there is one.
    fn position(&self, id: &String) -> (found: Option<usize>)
        ensures
            match found {
                Some(i) => holds(self.entries(), i as int, id@),
                None => forall|i: int| !holds(self.entries(), i, id@),
            },
    {
        let mut i: usize = 0;
        while i < self.sessions.len()
            invariant
                i <= self.sessions.len(),
                forall|j: int| 0 <= j < i ==> !holds(self.entries(), j, id@),
            decreases self.sessions.len() - i,
        {
            if self.sessions[i].id == *id {
                return Some(i);
            }
            i = i + 1;
        }
        None
    }

    /// The number of conversations seen so far.
    pub fn conversations(&self) -> (n: usize)
        ensures
            self@.dom().finite(),
            n == self@.dom().len(),
    {
        proof {
            use_type_invariant(self);
            lemma_table_size(self.entries());
        }
        self.sessions.len()
    }

    /// The state of conversation `id`. It is never `Terminal`: a cancelled
    /// conversation is stored as back at `Start`.
    pub fn state_of(&self, id: &str) -> (state: ConversationState)
        ensures
            state@ == self.state_at(id@),
            !(state@ is Terminal),
    {
        proof {
            use_type_invariant(self);
        }
        let wanted = id.to_owned();
        match self.position(&wanted) {
            Some(i) => {
                proof {
                    lemma_table_at(self.entries(), i as int);
                }
                self.sessions[i].state.clone()
            },
            None => ConversationState::Start,
        }
    }

    /// Routes one message: the conversation it belongs to moves to the state
    /// that the routing table gives, every other conversation stays as it is,
    /// and the table's effect is handed back. `authorized` is the policy's
    /// answer for the conversation.
    pub fn handle(&mut self, event: &InboundEvent, authorized: bool) -> (effect: Effect)
        ensures
            effect@ == outcome(
                old(self).state_at(event.conversation_id@),
                event@,
                authorized,
            ).1,
            final(self)@ == old(self)@.insert(
                event.conversation_id@,
                outcome(old(self).state_at(event.conversation_id@), event@, authorized).0,
            ),
    {
        proof {
            use_type_invariant(&*self);
        }
        let ghost before = self.entries();
        match self.position(&event.conversation_id) {
            Some(i) => {
                let (next, effect) = transition(&self.sessions[i].state, event, authorized);
                proof {
                    lemma_table_at(before, i as int);
                    lemma_table_update(before, i as int, next@);
                }
                let mut sessions: Vec<Session> = Vec::new();
                core::mem::swap(&mut self.sessions, &mut sessions);
                sessions.set(i, Session { id: event.conversation_id.clone(), state: next });
                proof {
                    assert(entries_of(sessions@) =~= before.update(
                        i as int,
                        (before[i as int].0, next@),
                    ));
                }
                core::mem::swap(&mut self.sessions, &mut sessions);
                effect
            },
            None => {
                let (next, effect) = transition(&ConversationState::Start, event, authorized);
                proof {
                    lemma_table_push(before, event.conversation_id@, next@);
                }
                let mut sessions: Vec<Session> = Vec::new();
                core::mem::swap(&mut self.sessions, &mut sessions);
                sessions.push(Session { id: event.conversation_id.clone(), state: next });
                proof {
                    assert(entries_of(sessions@) =~= before.push((event.conversation_id@, next@)));
                }
                core::mem::swap(&mut self.sessions, &mut sessions);
                effect
            },
        }
    }
}

} // verus!
