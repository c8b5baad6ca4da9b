use std::collections::HashMap;
use vstd::prelude::*;
use vstd::std_specs::hash::*;

use crate::turn::{well_formed, Role, Turn, TurnView};

verus! {

broadcast use group_hash_axioms;

/// The history a fresh conversation starts with: the default system prompt alone.
pub open spec fn fresh_history(prompt: Seq<char>) -> Seq<TurnView> {
    seq![TurnView { role: Role::System, content: prompt }]
}

/// What `get_or_create` hands out for `id` on a store whose contents are `m`.
pub open spec fn history_for(m: Map<u64, Seq<TurnView>>, prompt: Seq<char>, id: u64) -> Seq<
    TurnView,
> {
    if m.contains_key(id) {
        m[id]
    } else {
        fresh_history(prompt)
    }
}

/// A new history: the default system prompt alone.
pub fn create_chat_history(default_prompt: &str) -> (h: Vec<Turn>)
    ensures
        h.deep_view() == fresh_history(default_prompt@),
{
    let h = vec![Turn::system(default_prompt.to_string())];
    assert(h.deep_view() =~= fresh_history(default_prompt@));
    h
}

/// The store contents described by a snapshot's entries, a later entry for an
/// identifier standing over an earlier one.
pub open spec fn snapshot_map(entries: Seq<(u64, Vec<Turn>)>) -> Map<u64, Seq<TurnView>>
    decreases entries.len(),
{
    if entries.len() == 0 {
        Map::empty()
    } else {
        snapshot_map(entries.drop_last()).insert(
            entries.last().0,
            entries.last().1.deep_view(),
        )
    }
}

/// Every history of a snapshot opens with a system turn.
pub open spec fn snapshot_well_formed(entries: Seq<(u64, Vec<Turn>)>) -> bool {
    forall|i: int| 0 <= i < entries.len() ==> well_formed(#[trigger] entries[i].1.deep_view())
}

/// Every conversation of the store, each under its identifier.
pub struct ConversationStore {
    histories: HashMap<u64, Vec<Turn>>,
    default_prompt: String,
}

impl View for ConversationStore {
    type V = Map<u64, Seq<TurnView>>;

    closed spec fn view(&self) -> Map<u64, Seq<TurnView>> {
        self.histories@.map_values(|h: Vec<Turn>| h.deep_view())
    }
}

impl ConversationStore {
    /// The system prompt that new and reset conversations start with.
    pub closed spec fn prompt(&self) -> Seq<char> {
        self.default_prompt@
    }

    /// Every stored history is well formed.
    pub open spec fn wf(&self) -> bool {
        forall|id: u64| #[trigger] self@.contains_key(id) ==> well_formed(self@[id])
    }

    fn fresh(&self) -> (h: Vec<Turn>)
        ensures
            h.deep_view() == fresh_history(self.prompt()),
    {
        create_chat_history(self.default_prompt.as_str())
    }

    /// An empty store whose conversations will start with `default_prompt`.
    pub fn new(default_prompt: String) -> (s: Self)
        ensures
            s@ == Map::<u64, Seq<TurnView>>::empty(),
            s.prompt() == default_prompt@,
            s.wf(),
    {
        let s = ConversationStore { histories: HashMap::new(), default_prompt };
        assert(s@ =~= Map::<u64, Seq<TurnView>>::empty());
        s
    }

    /// The history of `id`, if that conversation is registered.
    pub fn get(&self, id: u64) -> (r: Option<&Vec<Turn>>)
        ensures
            match r {
                Some(h) => self@.contains_key(id) && h.deep_view() == self@[id],
                None => !self@.contains_key(id),
            },
    {
        self.histories.get(&id)
    }

    /// The history of `id`, created with the default prompt if it was absent.
    /// The store stays well formed as long as the caller leaves the history
    /// opening with a system turn, as every operation of this crate does.
    pub fn get_or_create(&mut self, id: u64) -> (h: &mut Vec<Turn>)
        requires
            old(self).wf(),
        ensures
            h.deep_view() == history_for(old(self)@, old(self).prompt(), id),
            well_formed(h.deep_view()),
            final(self)@ == old(self)@.insert(id, final(h).deep_view()),
            final(self).prompt() == old(self).prompt(),
    {
        let fresh = self.fresh();
        let h = self.histories.entry(id).or_insert(fresh);
        h
    }
    /// Forgets the conversation `id`; nothing happens if it is absent.
    pub fn remove(&mut self, id: u64)
        ensures
            final(self)@ == old(self)@.remove(id),
            final(self).prompt() == old(self).prompt(),
            old(self).wf() ==> final(self).wf(),
    {
        self.histories.remove(&id);
        assert(self@ =~= old(self)@.remove(id));
    }

    /// Starts the conversation `id` over: all its turns, the system prompt
    /// included, give way to the default prompt alone.
    pub fn reset(&mut self, id: u64)
        ensures
            final(self)@ == old(self)@.insert(id, fresh_history(old(self).prompt())),
            final(self)@[id].len() == 1,
            final(self)@[id][0] == (TurnView { role: Role::System, content: old(self).prompt() }),
            final(self).prompt() == old(self).prompt(),
            old(self).wf() ==> final(self).wf(),
    {
        let fresh = self.fresh();
        self.histories.insert(id, fresh);
        assert(self@ =~= old(self)@.insert(id, fresh_history(old(self).prompt())));
    }

    /// Stores `history` under `id`, as a snapshot being loaded does. A history
    /// that does not open with a system turn is refused and the store is left
    /// unchanged.
    pub fn insert(&mut self, id: u64, history: Vec<Turn>) -> (accepted: bool)
        ensures
            accepted == well_formed(history.deep_view()),
            accepted ==> final(self)@ == old(self)@.insert(id, history.deep_view()),
            !accepted ==> final(self)@ == old(self)@,
            final(self).prompt() == old(self).prompt(),
            old(self).wf() ==> final(self).wf(),
    {
        if history.len() == 0 || history[0].role != Role::System {
            return false;
        }
        let ghost hv = history.deep_view();
        self.histories.insert(id, history);
        assert(self@ =~= old(self)@.insert(id, hv));
        true
    }

    /// Every conversation, for writing a snapshot of the store.
    pub fn histories(&self) -> (m: &HashMap<u64, Vec<Turn>>)
        ensures
            m@.map_values(|h: Vec<Turn>| h.deep_view()) == self@,
    {
        &self.histories
    }
}

/// Rebuilds a store from the entries of a saved snapshot. A snapshot with
/// a history that does not open with a system turn is malformed and gives
/// `None`.
pub fn load_chat_history(default_prompt: String, entries: Vec<(u64, Vec<Turn>)>) -> (r: Option<
    ConversationStore,
>)
    ensures
        r is Some <==> snapshot_well_formed(entries@),
        r matches Some(s) ==> s@ == snapshot_map(entries@) && s.prompt() == default_prompt@
            && s.wf(),
{
    let ghost all = entries@;
    let mut s = ConversationStore::new(default_prompt);
    for e in it: entries
        invariant
            it.seq() == all,
            s@ == snapshot_map(all.take(it.index() as int)),
            snapshot_well_formed(all.take(it.index() as int)),
            s.prompt() == default_prompt@,
            s.wf(),
    {
        let ghost done = all.take(it.index() as int);
        let ghost next = all.take(it.index() + 1);
        assert(next.drop_last() =~= done);
        let (id, history) = e;
        if !s.insert(id, history) {
            assert(!well_formed(all[it.index() as int].1.deep_view()));
            return None;
        }
        assert(snapshot_well_formed(next)) by {
            assert forall|i: int| 0 <= i < next.len() implies well_formed(
                #[trigger] next[i].1.deep_view(),
            ) by {
                if i < done.len() {
                    assert(next[i] == done[i]);
                }
            }
        }
    }
    assert(all.take(all.len() as int) =~= all);
    Some(s)
}

/// `get_or_create` is idempotent: when the history it handed out for `id` is
/// left as it was, a second call hands out the same history and leaves the
/// store as the first call left it.
pub proof fn lemma_get_or_create_idempotent(m: Map<u64, Seq<TurnView>>, prompt: Seq<char>, id: u64)
    ensures
        history_for(m.insert(id, history_for(m, prompt, id)), prompt, id) == history_for(
            m,
            prompt,
            id,
        ),
        m.insert(id, history_for(m, prompt, id)).insert(
            id,
            history_for(m.insert(id, history_for(m, prompt, id)), prompt, id),
        ) == m.insert(id, history_for(m, prompt, id)),
{
    let once = m.insert(id, history_for(m, prompt, id));
    assert(once.insert(id, history_for(once, prompt, id)) =~= once);
}

} // verus!
