//! The Target Store: the one piece of state that survives a cycle
//! boundary.  It maps an agent's identity to the goal the agent currently
//! holds; absence of an entry means the agent is idle and needs a fresh
//! assignment.  Goals are never mutated in place: callers take an entry
//! out with [`TargetStore::get_and_remove`] and either reinsert it or drop
//! it.

use vstd::prelude::*;

use crate::goal::Goal;

verus! {

struct StoreEntry {
    id: String,
    goal: Goal,
}

/// Cycle-persistent mapping from agent identity to its assigned goal.
///
/// Viewed as a [`Map`] from the agent's identity (a character sequence) to
/// the stored [`Goal`].
pub struct TargetStore {
    entries: Vec<StoreEntry>,
}

spec fn ids_unique(s: Seq<StoreEntry>) -> bool {
    forall|i: int, j: int| 0 <= i < j < s.len() ==> s[i].id@ != s[j].id@
}

spec fn map_of(s: Seq<StoreEntry>) -> Map<Seq<char>, Goal>
    decreases s.len(),
{
    if s.len() == 0 {
        Map::empty()
    } else {
        map_of(s.drop_last()).insert(s.last().id@, s.last().goal)
    }
}

proof fn lemma_unique_drop_last(s: Seq<StoreEntry>)
    requires
        ids_unique(s),
        s.len() > 0,
    ensures
        ids_unique(s.drop_last()),
{
    assert forall|i: int, j: int| 0 <= i < j < s.drop_last().len() implies s.drop_last()[i].id@
        != s.drop_last()[j].id@ by {
        assert(s.drop_last()[i] == s[i]);
        assert(s.drop_last()[j] == s[j]);
    }
}

proof fn lemma_map_of_contains(s: Seq<StoreEntry>, k: Seq<char>)
    ensures
        map_of(s).contains_key(k) <==> exists|i: int| 0 <= i < s.len() && s[i].id@ == k,
    decreases s.len(),
{
    if s.len() == 0 {
    } else {
        lemma_map_of_contains(s.drop_last(), k);
        if s.last().id@ == k {
            assert(s[s.len() - 1].id@ == k);
        } else if map_of(s).contains_key(k) {
            let i = choose|i: int| 0 <= i < s.drop_last().len() && s.drop_last()[i].id@ == k;
            assert(s[i].id@ == k);
        } else if exists|i: int| 0 <= i < s.len() && s[i].id@ == k {
            let i = choose|i: int| 0 <= i < s.len() && s[i].id@ == k;
            assert(i < s.len() - 1);
            assert(s.drop_last()[i].id@ == k);
        }
    }
}

proof fn lemma_map_of_index(s: Seq<StoreEntry>, i: int)
    requires
        ids_unique(s),
        0 <= i < s.len(),
    ensures
        map_of(s).contains_key(s[i].id@),
        map_of(s)[s[i].id@] == s[i].goal,
    decreases s.len(),
{
    if i == s.len() - 1 {
    } else {
        lemma_unique_drop_last(s);
        assert(s.drop_last()[i] == s[i]);
        lemma_map_of_index(s.drop_last(), i);
        assert(s[i].id@ != s.last().id@);
    }
}

proof fn lemma_map_of_remove(s: Seq<StoreEntry>, i: int)
    requires
        ids_unique(s),
        0 <= i < s.len(),
    ensures
        ids_unique(s.remove(i)),
        map_of(s.remove(i)) == map_of(s).remove(s[i].id@),
    decreases s.len(),
{
    s.remove_ensures(i);
    assert forall|a: int, b: int| 0 <= a < b < s.remove(i).len() implies s.remove(i)[a].id@
        != s.remove(i)[b].id@ by {
        let a0 = if a < i { a } else { a + 1 };
        let b0 = if b < i { b } else { b + 1 };
        assert(s.remove(i)[a] == s[a0]);
        assert(s.remove(i)[b] == s[b0]);
    }
    lemma_unique_drop_last(s);
    if i == s.len() - 1 {
        assert(s.remove(i) =~= s.drop_last());
        lemma_map_of_contains(s.drop_last(), s[i].id@);
        assert(!map_of(s.drop_last()).contains_key(s[i].id@)) by {
            if exists|j: int| 0 <= j < s.drop_last().len() && s.drop_last()[j].id@ == s[i].id@ {
                let j = choose|j: int|
                    0 <= j < s.drop_last().len() && s.drop_last()[j].id@ == s[i].id@;
                assert(s[j].id@ == s[i].id@);
            }
        }
        assert(map_of(s.drop_last()).insert(s.last().id@, s.last().goal).remove(s[i].id@)
            =~= map_of(s.drop_last()));
    } else {
        let t = s.remove(i);
        assert(t.len() == s.len() - 1);
        assert(t.last() == s[s.len() - 1]);
        assert(t.drop_last() =~= s.drop_last().remove(i)) by {
            s.drop_last().remove_ensures(i);
            assert forall|j: int| 0 <= j < t.drop_last().len() implies t.drop_last()[j]
                == s.drop_last().remove(i)[j] by {
                let j0 = if j < i { j } else { j + 1 };
                assert(t[j] == s[j0]);
                assert(s.drop_last()[j0] == s[j0]);
            }
        }
        lemma_map_of_remove(s.drop_last(), i);
        assert(s.drop_last()[i] == s[i]);
        assert(s[i].id@ != s.last().id@);
        assert(map_of(t) == map_of(s.drop_last()).remove(s[i].id@).insert(
            s.last().id@,
            s.last().goal,
        ));
        assert(map_of(s.drop_last()).remove(s[i].id@).insert(s.last().id@, s.last().goal)
            =~= map_of(s.drop_last()).insert(s.last().id@, s.last().goal).remove(s[i].id@));
    }
}

proof fn lemma_map_of_push(s: Seq<StoreEntry>, e: StoreEntry)
    ensures
        map_of(s.push(e)) == map_of(s).insert(e.id@, e.goal),
{
    assert(s.push(e).drop_last() =~= s);
    assert(s.push(e).last() == e);
}

/// The set of identities a list of live agents carries.
pub open spec fn id_set(live: Seq<String>) -> Set<Seq<char>> {
    Set::new(|k: Seq<char>| exists|i: int| 0 <= i < live.len() && live[i]@ == k)
}

fn contains_id(live: &Vec<String>, id: &String) -> (r: bool)
    ensures
        r == id_set(live@).contains(id@),
{
    let n = live.len();
    let mut i: usize = 0;
    while i < n
        invariant
            i <= n,
            n == live@.len(),
            forall|j: int| 0 <= j < i ==> live@[j]@ != id@,
        decreases n - i,
    {
        if live[i] == *id {
            return true;
        }
        i += 1;
    }
    false
}

impl View for TargetStore {
    type V = Map<Seq<char>, Goal>;

    closed spec fn view(&self) -> Map<Seq<char>, Goal> {
        map_of(self.entries@)
    }
}

impl TargetStore {
    /// Well-formedness: each agent identity owns at most one entry.
    pub closed spec fn wf(&self) -> bool {
        ids_unique(self.entries@)
    }

    /// Creates an empty store.  The host driver makes one when the process
    /// starts and keeps it alive across every cycle.
    pub fn new() -> (s: TargetStore)
        ensures
            s.wf(),
            s@ == Map::<Seq<char>, Goal>::empty(),
    {
        TargetStore { entries: Vec::new() }
    }

    fn find_index(&self, id: &String) -> (r: Option<usize>)
        ensures
            match r {
                Some(i) => i < self.entries@.len() && self.entries@[i as int].id@ == id@,
                None => forall|i: int| 0 <= i < self.entries@.len() ==> self.entries@[i].id@
                    != id@,
            },
    {
        let n = self.entries.len();
        let mut i: usize = 0;
        while i < n
            invariant
                i <= n,
                n == self.entries@.len(),
                forall|j: int| 0 <= j < i ==> self.entries@[j].id@ != id@,
            decreases n - i,
        {
            if self.entries[i].id == *id {
                return Some(i);
            }
            i += 1;
        }
        None
    }

    /// Reads the goal currently stored for an agent, leaving the store as
    /// it is.  The host uses this to learn which persisted reference it
    /// must resolve before the agent's per-cycle step.
    pub fn peek(&self, id: &String) -> (r: Option<Goal>)
        requires
            self.wf(),
        ensures
            r == (if self@.contains_key(id@) {
                Some(self@[id@])
            } else {
                None::<Goal>
            }),
    {
        proof {
            lemma_map_of_contains(self.entries@, id@);
        }
        match self.find_index(id) {
            Some(i) => {
                proof {
                    lemma_map_of_index(self.entries@, i as int);
                }
                Some(self.entries[i].goal)
            },
            None => None,
        }
    }

    /// Takes ownership of an agent's stored goal for this cycle's
    /// processing: the entry, if any, is removed and its goal returned.
    pub fn get_and_remove(&mut self, id: &String) -> (r: Option<Goal>)
        requires
            old(self).wf(),
        ensures
            final(self).wf(),
            final(self)@ == old(self)@.remove(id@),
            r == (if old(self)@.contains_key(id@) {
                Some(old(self)@[id@])
            } else {
                None::<Goal>
            }),
    {
        proof {
            lemma_map_of_contains(self.entries@, id@);
        }
        match self.find_index(id) {
            Some(i) => {
                proof {
                    lemma_map_of_index(self.entries@, i as int);
                    lemma_map_of_remove(self.entries@, i as int);
                }
                let e = self.entries.remove(i);
                Some(e.goal)
            },
            None => {
                proof {
                    assert(map_of(self.entries@).remove(id@) =~= map_of(self.entries@));
                }
                None
            },
        }
    }

    /// Installs or replaces the goal for an agent.
    pub fn insert(&mut self, id: &String, goal: Goal)
        requires
            old(self).wf(),
        ensures
            final(self).wf(),
            final(self)@ == old(self)@.insert(id@, goal),
    {
        let ghost m0 = self@;
        let _ = self.get_and_remove(id);
        proof {
            lemma_map_of_contains(self.entries@, id@);
        }
        let e = StoreEntry { id: id.clone(), goal };
        proof {
            lemma_map_of_push(self.entries@, e);
            let s = self.entries@;
            assert forall|a: int, b: int| 0 <= a < b < s.push(e).len() implies s.push(e)[a].id@
                != s.push(e)[b].id@ by {
                if b < s.len() {
                    assert(s.push(e)[a] == s[a]);
                    assert(s.push(e)[b] == s[b]);
                } else {
                    assert(s.push(e)[a] == s[a]);
                    assert(s.push(e)[b] == e);
                }
            }
            assert(m0.remove(id@).insert(id@, goal) =~= m0.insert(id@, goal));
        }
        self.entries.push(e);
    }

    /// The peripheral maintenance task: drops every entry whose agent
    /// identity is not among the live agents, so that entries of
    /// destroyed agents do not accumulate forever.
    pub fn retain_live(&mut self, live: &Vec<String>)
        requires
            old(self).wf(),
        ensures
            final(self).wf(),
            final(self)@ == old(self)@.restrict(id_set(live@)),
    {
        let n = self.entries.len();
        let mut kept: Vec<StoreEntry> = Vec::new();
        let mut i: usize = 0;
        while i < n
            invariant
                i <= n,
                n == self.entries@.len(),
                ids_unique(self.entries@),
                ids_unique(kept@),
                forall|j: int| 0 <= j < kept@.len() ==> exists|l: int|
                    0 <= l < i && self.entries@[l].id@ == #[trigger] kept@[j].id@,
                map_of(kept@) == map_of(self.entries@.take(i as int)).restrict(id_set(live@)),
            decreases n - i,
        {
            let ghost s = self.entries@;
            proof {
                assert(s.take(i + 1).drop_last() =~= s.take(i as int));
                assert(s.take(i + 1).last() == s[i as int]);
            }
            let e = &self.entries[i];
            if contains_id(live, &e.id) {
                let ghost kept0 = kept@;
                let e2 = StoreEntry { id: e.id.clone(), goal: e.goal };
                proof {
                    lemma_map_of_push(kept0, e2);
                    assert forall|a: int, b: int|
                        0 <= a < b < kept0.push(e2).len() implies kept0.push(e2)[a].id@
                        != kept0.push(e2)[b].id@ by {
                        if b < kept0.len() {
                            assert(kept0.push(e2)[a] == kept0[a]);
                            assert(kept0.push(e2)[b] == kept0[b]);
                        } else {
                            assert(kept0.push(e2)[a] == kept0[a]);
                            assert(kept0.push(e2)[b] == e2);
                            let l = choose|l: int|
                                0 <= l < i && self.entries@[l].id@ == kept0[a].id@;
                            assert(s[l].id@ != s[i as int].id@);
                        }
                    }
                    assert(map_of(s.take(i as int)).insert(s[i as int].id@, s[i as int].goal)
                        .restrict(id_set(live@)) =~= map_of(s.take(i as int)).restrict(
                        id_set(live@),
                    ).insert(s[i as int].id@, s[i as int].goal));
                }
                kept.push(e2);
            } else {
                proof {
                    assert(map_of(s.take(i + 1)) == map_of(s.take(i as int)).insert(
                        s[i as int].id@,
                        s[i as int].goal,
                    ));
                    assert(map_of(s.take(i + 1)).restrict(id_set(live@)) =~= map_of(
                        s.take(i as int),
                    ).restrict(id_set(live@)));
                }
            }
            i += 1;
        }
        proof {
            assert(self.entries@.take(n as int) =~= self.entries@);
        }
        self.entries = kept;
    }
}

} // verus!
