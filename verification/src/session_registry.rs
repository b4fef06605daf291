//! The registry of active agent sessions: each session id names one entry,
//! holding the session's summary and its state machine's state.
use vstd::prelude::*;
use crate::agent_state::AgentState;
use crate::sessions::AgentSession;
use crate::text::str_eq;

verus! {

/// A session of the registry with its full state-machine state.
#[derive(Debug)]
pub struct SessionEntry {
    pub session: AgentSession,
    pub state: AgentState,
}

/// The sessions by id.
pub struct SessionRegistry {
    entries: Vec<(String, SessionEntry)>,
}

/// The map that a list of (id, entry) pairs stands for: a later pair wins
/// over an earlier one with the same id.
pub open spec fn entries_map(s: Seq<(String, SessionEntry)>) -> Map<Seq<char>, SessionEntry>
    decreases s.len(),
{
    if s.len() == 0 {
        Map::empty()
    } else {
        entries_map(s.drop_last()).insert(s.last().0@, s.last().1)
    }
}

/// No two pairs have the same id.
pub open spec fn ids_unique(s: Seq<(String, SessionEntry)>) -> bool {
    forall|i: int, j: int| 0 <= i < j < s.len() ==> s[i].0@ != s[j].0@
}

/// With distinct ids, the map holds exactly the ids of the list, each with
/// its entry.
proof fn lemma_entries_map(s: Seq<(String, SessionEntry)>)
    requires
        ids_unique(s),
    ensures
        forall|k: Seq<char>| #[trigger]
            entries_map(s).dom().contains(k) <==> exists|i: int| 0 <= i < s.len() && s[i].0@ == k,
        forall|i: int| 0 <= i < s.len() ==> #[trigger] entries_map(s)[s[i].0@] == s[i].1,
    decreases s.len(),
{
    if s.len() > 0 {
        let t = s.drop_last();
        assert(ids_unique(t));
        lemma_entries_map(t);
        assert forall|k: Seq<char>| #[trigger]
            entries_map(s).dom().contains(k) <==> exists|i: int| 0 <= i < s.len() && s[i].0@ == k by {
            if entries_map(s).dom().contains(k) {
                if k == s.last().0@ {
                    assert(s[s.len() - 1].0@ == k);
                } else {
                    assert(entries_map(t).dom().contains(k));
                    let i = choose|i: int| 0 <= i < t.len() && t[i].0@ == k;
                    assert(t[i] == s[i]);
                }
            }
            if exists|i: int| 0 <= i < s.len() && s[i].0@ == k {
                let i = choose|i: int| 0 <= i < s.len() && s[i].0@ == k;
                if i < s.len() - 1 {
                    assert(t[i].0@ == k);
                    assert(entries_map(t).dom().contains(k));
                }
            }
        }
        assert forall|i: int| 0 <= i < s.len() implies #[trigger] entries_map(s)[s[i].0@] == s[i].1 by {
            if i < s.len() - 1 {
                assert(t[i] == s[i]);
                assert(s[i].0@ != s[s.len() - 1].0@);
                assert(entries_map(t)[t[i].0@] == t[i].1);
            }
        }
    }
}

/// Replacing the entry of the `i`-th pair keeps the ids distinct and
/// replaces that id's entry in the map.
proof fn lemma_replace_entry(s: Seq<(String, SessionEntry)>, i: int, id: String, e: SessionEntry)
    requires
        ids_unique(s),
        0 <= i < s.len(),
        id@ == s[i].0@,
    ensures
        ids_unique(s.update(i, (id, e))),
        entries_map(s.update(i, (id, e))) == entries_map(s).insert(id@, e),
{
    let s1 = s.update(i, (id, e));
    let key = id@;
    lemma_entries_map(s);
    assert(ids_unique(s1)) by {
        assert forall|a: int, b: int| 0 <= a < b < s1.len() implies s1[a].0@ != s1[b].0@ by {
            if a != i && b != i {
                assert(s1[a] == s[a] && s1[b] == s[b]);
            } else if a == i {
                assert(s1[b] == s[b]);
            } else {
                assert(s1[a] == s[a]);
            }
        }
    }
    lemma_entries_map(s1);
    assert(entries_map(s1) =~= entries_map(s).insert(key, e)) by {
        assert forall|k: Seq<char>| #[trigger] entries_map(s1).dom().contains(k) <==> entries_map(s).insert(
            key,
            e,
        ).dom().contains(k) by {
            if exists|j: int| 0 <= j < s.len() && s[j].0@ == k {
                let j = choose|j: int| 0 <= j < s.len() && s[j].0@ == k;
                if j != i {
                    assert(s1[j] == s[j]);
                } else {
                    assert(s1[i].0@ == k);
                }
            }
            if exists|j: int| 0 <= j < s1.len() && s1[j].0@ == k {
                let j = choose|j: int| 0 <= j < s1.len() && s1[j].0@ == k;
                if j != i {
                    assert(s1[j] == s[j]);
                }
            }
            if k == key {
                assert(s1[i].0@ == k);
            }
        }
        assert forall|k: Seq<char>| #[trigger] entries_map(s1).dom().contains(k) implies entries_map(s1)[k]
            == entries_map(s).insert(key, e)[k] by {
            let j = choose|j: int| 0 <= j < s1.len() && s1[j].0@ == k;
            if j != i {
                assert(s1[j] == s[j]);
                assert(entries_map(s1)[s1[j].0@] == s1[j].1);
                assert(entries_map(s)[s[j].0@] == s[j].1);
            } else {
                assert(entries_map(s1)[s1[j].0@] == s1[j].1);
            }
        }
    }
}

impl View for SessionRegistry {
    type V = Map<Seq<char>, SessionEntry>;

    closed spec fn view(&self) -> Map<Seq<char>, SessionEntry> {
        entries_map(self.entries@)
    }
}

impl SessionRegistry {
    /// The registry's invariant: no id appears twice.
    pub closed spec fn wf(&self) -> bool {
        ids_unique(self.entries@)
    }

    /// The number of sessions.
    pub closed spec fn count(&self) -> nat {
        self.entries@.len()
    }

    /// An empty registry.
    pub fn new() -> (r: SessionRegistry)
        ensures
            r.wf(),
            r@ == Map::<Seq<char>, SessionEntry>::empty(),
    {
        SessionRegistry { entries: Vec::new() }
    }

    /// Where the id is, if anywhere.
    fn position(&self, id: &str) -> (r: Option<usize>)
        ensures
            match r {
                Some(i) => i < self.entries@.len() && self.entries@[i as int].0@ == id@,
                None => forall|i: int| 0 <= i < self.entries@.len() ==> self.entries@[i].0@ != id@,
            },
    {
        let mut i: usize = 0;
        while i < self.entries.len()
            invariant
                i <= self.entries@.len(),
                forall|j: int| 0 <= j < i ==> self.entries@[j].0@ != id@,
            decreases self.entries@.len() - i,
        {
            if str_eq(self.entries[i].0.as_str(), id) {
                return Some(i);
            }
            i = i + 1;
        }
        None
    }

    /// Inserts a session under `id`, replacing the entry it had.
    pub fn insert(&mut self, id: String, entry: SessionEntry)
        requires
            old(self).wf(),
        ensures
            final(self).wf(),
            final(self)@ == old(self)@.insert(id@, entry),
    {
        let ghost s0 = self.entries@;
        proof {
            lemma_entries_map(s0);
        }
        match self.position(id.as_str()) {
            Some(i) => {
                proof {
                    lemma_replace_entry(s0, i as int, id, entry);
                }
                self.entries.set(i, (id, entry));
            },
            None => {
                self.entries.push((id, entry));
                proof {
                    let s1 = self.entries@;
                    assert(s1.drop_last() =~= s0);
                    assert(ids_unique(s1)) by {
                        assert forall|a: int, b: int| 0 <= a < b < s1.len() implies s1[a].0@ != s1[b].0@ by {
                            if b < s0.len() {
                                assert(s1[a] == s0[a] && s1[b] == s0[b]);
                            } else {
                                assert(s1[a] == s0[a]);
                            }
                        }
                    }
                }
            },
        }
    }

    /// The entry of a session, if the registry has it.
    pub fn get(&self, id: &str) -> (r: Option<&SessionEntry>)
        requires
            self.wf(),
        ensures
            match r {
                Some(e) => self@.dom().contains(id@) && *e == self@[id@],
                None => !self@.dom().contains(id@),
            },
    {
        proof {
            lemma_entries_map(self.entries@);
        }
        match self.position(id) {
            Some(i) => Some(&self.entries[i].1),
            None => None,
        }
    }

    /// The entry of a session, to change in place, if the registry has it.
    pub fn get_mut(&mut self, id: &str) -> (r: Option<&mut SessionEntry>)
        requires
            old(self).wf(),
        ensures
            final(self).wf(),
            match r {
                Some(e) => old(self)@.dom().contains(id@) && *e == old(self)@[id@] && final(self)@ == old(
                    self,
                )@.insert(id@, *final(e)),
                None => !old(self)@.dom().contains(id@) && final(self)@ == old(self)@,
            },
    {
        proof {
            lemma_entries_map(self.entries@);
        }
        let ghost s0 = self.entries@;
        match self.position(id) {
            Some(i) => {
                let (_, e) = &mut self.entries[i];
                proof {
                    lemma_replace_entry(s0, i as int, s0[i as int].0, *final(e));
                }
                Some(e)
            },
            None => None,
        }
    }

    /// Removes a session, handing back its entry if the registry had it.
    pub fn remove(&mut self, id: &str) -> (r: Option<SessionEntry>)
        requires
            old(self).wf(),
        ensures
            final(self).wf(),
            final(self)@ == old(self)@.remove(id@),
            match r {
                Some(e) => old(self)@.dom().contains(id@) && e == old(self)@[id@],
                None => !old(self)@.dom().contains(id@),
            },
    {
        let ghost s0 = self.entries@;
        proof {
            lemma_entries_map(s0);
        }
        match self.position(id) {
            Some(i) => {
                let (_, e) = self.entries.remove(i);
                proof {
                    let s1 = self.entries@;
                    assert(s1 =~= s0.remove(i as int));
                    assert(ids_unique(s1)) by {
                        assert forall|a: int, b: int| 0 <= a < b < s1.len() implies s1[a].0@ != s1[b].0@ by {
                            let a0 = if a < i { a } else { a + 1 };
                            let b0 = if b < i { b } else { b + 1 };
                            assert(s1[a] == s0[a0] && s1[b] == s0[b0]);
                        }
                    }
                    lemma_entries_map(s1);
                    assert(entries_map(s1) =~= entries_map(s0).remove(id@)) by {
                        assert forall|k: Seq<char>| #[trigger] entries_map(s1).dom().contains(k) <==> entries_map(
                            s0,
                        ).remove(id@).dom().contains(k) by {
                            if exists|j: int| 0 <= j < s0.len() && s0[j].0@ == k {
                                let j = choose|j: int| 0 <= j < s0.len() && s0[j].0@ == k;
                                if j < i {
                                    assert(s1[j] == s0[j]);
                                } else if j > i {
                                    assert(s1[j - 1] == s0[j]);
                                }
                            }
                            if exists|j: int| 0 <= j < s1.len() && s1[j].0@ == k {
                                let j = choose|j: int| 0 <= j < s1.len() && s1[j].0@ == k;
                                let j0 = if j < i { j } else { j + 1 };
                                assert(s1[j] == s0[j0]);
                            }
                        }
                        assert forall|k: Seq<char>| #[trigger] entries_map(s1).dom().contains(k) implies entries_map(
                            s1,
                        )[k] == entries_map(s0).remove(id@)[k] by {
                            let j = choose|j: int| 0 <= j < s1.len() && s1[j].0@ == k;
                            let j0 = if j < i { j } else { j + 1 };
                            assert(s1[j] == s0[j0]);
                            assert(entries_map(s1)[s1[j].0@] == s1[j].1);
                            assert(entries_map(s0)[s0[j0].0@] == s0[j0].1);
                        }
                    }
                }
                Some(e)
            },
            None => {
                proof {
                    assert(entries_map(s0).remove(id@) =~= entries_map(s0));
                }
                None
            },
        }
    }

    /// The id of the `i`-th session in the order `list` gives them.
    pub closed spec fn id_at(&self, i: int) -> Seq<char> {
        self.entries@[i].0@
    }

    /// The sessions of the registry, one per id, in the order of `id_at`.
    pub fn list(&self) -> (r: Vec<&AgentSession>)
        requires
            self.wf(),
        ensures
            r@.len() == self@.len(),
            forall|i: int|
                0 <= i < r@.len() ==> self@.dom().contains(#[trigger] self.id_at(i)) && *r@[i] == self@[self.id_at(
                    i,
                )].session,
            forall|k: Seq<char>| #[trigger]
                self@.dom().contains(k) ==> exists|i: int| 0 <= i < r@.len() && self.id_at(i) == k,
    {
        proof {
            lemma_entries_map(self.entries@);
            lemma_map_len(self.entries@);
        }
        let mut r: Vec<&AgentSession> = Vec::new();
        let mut i: usize = 0;
        while i < self.entries.len()
            invariant
                i <= self.entries@.len(),
                r@.len() == i,
                forall|j: int| 0 <= j < i ==> *r@[j] == self.entries@[j].1.session,
            decreases self.entries@.len() - i,
        {
            r.push(&self.entries[i].1.session);
            i = i + 1;
        }
        proof {
            assert forall|k: Seq<char>| #[trigger] self@.dom().contains(k) implies exists|i: int|
                0 <= i < r@.len() && self.id_at(i) == k by {
                assert(entries_map(self.entries@).dom().contains(k));
                let i = choose|i: int| 0 <= i < self.entries@.len() && self.entries@[i].0@ == k;
                assert(self.id_at(i) == k);
            }
        }
        r
    }
}

impl Default for SessionRegistry {
    /// An empty registry.
    fn default() -> (r: SessionRegistry)
        ensures
            r.wf(),
            r@ == Map::<Seq<char>, SessionEntry>::empty(),
    {
        SessionRegistry::new()
    }
}

/// With distinct ids, the map has one key per pair.
proof fn lemma_map_len(s: Seq<(String, SessionEntry)>)
    requires
        ids_unique(s),
    ensures
        entries_map(s).len() == s.len(),
        entries_map(s).dom().finite(),
    decreases s.len(),
{
    if s.len() > 0 {
        let t = s.drop_last();
        assert(ids_unique(t));
        lemma_map_len(t);
        lemma_entries_map(t);
        assert(!entries_map(t).dom().contains(s.last().0@)) by {
            if entries_map(t).dom().contains(s.last().0@) {
                let i = choose|i: int| 0 <= i < t.len() && t[i].0@ == s.last().0@;
                assert(s[i].0@ == s[s.len() - 1].0@);
            }
        }
    }
}

/// What the registry answers is what was last put under the id: a read
/// after inserting gives the inserted entry, a read after removing gives
/// nothing, and other ids keep their entries.
pub proof fn law_registry_read_after_write(m: Map<Seq<char>, SessionEntry>, id: Seq<char>, other: Seq<char>, e: SessionEntry)
    requires
        id != other,
    ensures
        m.insert(id, e).dom().contains(id) && m.insert(id, e)[id] == e,
        !m.remove(id).dom().contains(id),
        m.insert(id, e).dom().contains(other) == m.dom().contains(other),
        m.dom().contains(other) ==> m.insert(id, e)[other] == m[other] && m.remove(id)[other] == m[other],
{
}

} // verus!
