use vstd::prelude::*;

use crate::domain::{ActionKind, Target, TargetView};

verus! {

/// Whether `k` is the target of some entry.
pub open spec fn has_target(entries: Seq<(Target, ActionKind)>, k: TargetView) -> bool {
    exists|j: int| 0 <= j < entries.len() && #[trigger] entries[j].0@ == k
}

/// The action recorded for `k` (meaningful when `has_target(entries, k)`).
pub open spec fn action_for(entries: Seq<(Target, ActionKind)>, k: TargetView) -> ActionKind {
    entries[choose|j: int| 0 <= j < entries.len() && #[trigger] entries[j].0@ == k].1
}

/// No target appears in two entries.
pub open spec fn targets_distinct(entries: Seq<(Target, ActionKind)>) -> bool {
    forall|i: int, j: int|
        0 <= i < entries.len() && 0 <= j < entries.len() && i != j ==> #[trigger] entries[i].0@
            != #[trigger] entries[j].0@
}

/// The map an entry list stands for.
pub open spec fn entries_map(entries: Seq<(Target, ActionKind)>) -> Map<TargetView, ActionKind> {
    Map::new(|k: TargetView| has_target(entries, k), |k: TargetView| action_for(entries, k))
}

/// Actions the engine has not answered yet, keyed by target so a row can show
/// "stopping..." and refuse a second request. At most one action per target.
#[derive(Debug)]
pub struct Inflight {
    entries: Vec<(Target, ActionKind)>,
}

impl View for Inflight {
    type V = Map<TargetView, ActionKind>;

    closed spec fn view(&self) -> Map<TargetView, ActionKind> {
        entries_map(self.entries@)
    }
}

proof fn lemma_lookup(entries: Seq<(Target, ActionKind)>, j: int)
    requires
        targets_distinct(entries),
        0 <= j < entries.len(),
    ensures
        entries_map(entries).contains_key(entries[j].0@),
        entries_map(entries)[entries[j].0@] == entries[j].1,
{
    let k = entries[j].0@;
    assert(has_target(entries, k));
    let c = choose|c: int| 0 <= c < entries.len() && #[trigger] entries[c].0@ == k;
    assert(c == j);
}

impl Inflight {
    #[verifier::type_invariant]
    spec fn distinct(self) -> bool {
        targets_distinct(self.entries@)
    }

    pub fn new() -> (r: Inflight)
        ensures
            r@ == Map::<TargetView, ActionKind>::empty(),
    {
        let r = Inflight { entries: Vec::new() };
        assert(r@ =~= Map::<TargetView, ActionKind>::empty());
        r
    }

    fn position(&self, target: &Target) -> (r: Option<usize>)
        ensures
            match r {
                Some(j) => j < self.entries@.len() && self.entries@[j as int].0@ == target@,
                None => !has_target(self.entries@, target@),
            },
    {
        let mut j: usize = 0;
        while j < self.entries.len()
            invariant
                j <= self.entries@.len(),
                forall|q: int| 0 <= q < j ==> #[trigger] self.entries@[q].0@ != target@,
            decreases self.entries@.len() - j,
        {
            if self.entries[j].0 == *target {
                return Some(j);
            }
            j = j + 1;
        }
        None
    }

    /// The action in flight for `target`, if any.
    pub fn get(&self, target: &Target) -> (r: Option<&ActionKind>)
        ensures
            match r {
                Some(a) => self@.contains_key(target@) && *a == self@[target@],
                None => !self@.contains_key(target@),
            },
    {
        proof {
            use_type_invariant(self);
        }
        match self.position(target) {
            Some(j) => {
                proof {
                    lemma_lookup(self.entries@, j as int);
                }
                Some(&self.entries[j].1)
            },
            None => None,
        }
    }

    /// Records `action` for `target`, replacing any action already recorded;
    /// returns the replaced one.
    pub fn insert(&mut self, target: Target, action: ActionKind) -> (r: Option<ActionKind>)
        ensures
            final(self)@ == old(self)@.insert(target@, action),
            r == if old(self)@.contains_key(target@) {
                Some(old(self)@[target@])
            } else {
                None::<ActionKind>
            },
    {
        proof {
            use_type_invariant(&*self);
        }
        let ghost before = self.entries@;
        match self.position(&target) {
            Some(j) => {
                proof {
                    lemma_lookup(before, j as int);
                }
                let previous = self.entries[j].1;
                let ghost k = target@;
                let mut entries: Vec<(Target, ActionKind)> = Vec::new();
                std::mem::swap(&mut entries, &mut self.entries);
                entries.set(j, (target, action));
                proof {
                    let after = entries@;
                    assert(after == before.update(j as int, after[j as int]));
                    assert forall|a: int, b: int|
                        0 <= a < after.len() && 0 <= b < after.len() && a != b implies #[trigger] after[a].0@
                        != #[trigger] after[b].0@ by {
                        if a != j && b != j {
                            assert(after[a] == before[a] && after[b] == before[b]);
                        } else if a == j {
                            assert(after[b] == before[b]);
                            assert(before[j as int].0@ == k);
                        } else {
                            assert(after[a] == before[a]);
                            assert(before[j as int].0@ == k);
                        }
                    }
                    assert forall|key: TargetView| #[trigger]
                        has_target(after, key) == has_target(before, key) by {
                        if has_target(before, key) {
                            let c = choose|c: int|
                                0 <= c < before.len() && #[trigger] before[c].0@ == key;
                            if c == j {
                                assert(after[j as int].0@ == key);
                            } else {
                                assert(after[c] == before[c]);
                            }
                        }
                        if has_target(after, key) {
                            let c = choose|c: int|
                                0 <= c < after.len() && #[trigger] after[c].0@ == key;
                            if c == j {
                                assert(before[j as int].0@ == key);
                            } else {
                                assert(after[c] == before[c]);
                            }
                        }
                    }
                    assert forall|key: TargetView| has_target(after, key) implies #[trigger] action_for(
                        after,
                        key,
                    ) == entries_map(before).insert(k, action)[key] by {
                        let c = choose|c: int|
                            0 <= c < after.len() && #[trigger] after[c].0@ == key;
                        lemma_lookup(after, c);
                        if c != j {
                            assert(after[c] == before[c]);
                            lemma_lookup(before, c);
                        }
                    }
                    assert(entries_map(after) =~= entries_map(before).insert(k, action));
                }
                self.entries = entries;
                Some(previous)
            },
            None => {
                let ghost k = target@;
                let mut entries: Vec<(Target, ActionKind)> = Vec::new();
                std::mem::swap(&mut entries, &mut self.entries);
                entries.push((target, action));
                proof {
                    let after = entries@;
                    assert(after == before.push(after.last()));
                    assert forall|a: int, b: int|
                        0 <= a < after.len() && 0 <= b < after.len() && a != b implies #[trigger] after[a].0@
                        != #[trigger] after[b].0@ by {
                        if a < before.len() && b < before.len() {
                            assert(after[a] == before[a] && after[b] == before[b]);
                        } else if a < before.len() {
                            assert(after[a] == before[a]);
                        } else {
                            assert(after[b] == before[b]);
                        }
                    }
                    assert forall|key: TargetView| #[trigger]
                        has_target(after, key) == (has_target(before, key) || key == k) by {
                        if has_target(before, key) {
                            let c = choose|c: int|
                                0 <= c < before.len() && #[trigger] before[c].0@ == key;
                            assert(after[c] == before[c]);
                        }
                        if key == k {
                            assert(after[before.len() as int].0@ == key);
                        }
                        if has_target(after, key) && key != k {
                            let c = choose|c: int|
                                0 <= c < after.len() && #[trigger] after[c].0@ == key;
                            assert(after[c] == before[c]);
                        }
                    }
                    assert forall|key: TargetView| has_target(after, key) implies #[trigger] action_for(
                        after,
                        key,
                    ) == entries_map(before).insert(k, action)[key] by {
                        let c = choose|c: int|
                            0 <= c < after.len() && #[trigger] after[c].0@ == key;
                        lemma_lookup(after, c);
                        if c < before.len() {
                            assert(after[c] == before[c]);
                            lemma_lookup(before, c);
                        }
                    }
                    assert(entries_map(after) =~= entries_map(before).insert(k, action));
                }
                self.entries = entries;
                None
            },
        }
    }

    /// Forgets the action recorded for `target`; returns it.
    pub fn remove(&mut self, target: &Target) -> (r: Option<ActionKind>)
        ensures
            final(self)@ == old(self)@.remove(target@),
            r == if old(self)@.contains_key(target@) {
                Some(old(self)@[target@])
            } else {
                None::<ActionKind>
            },
    {
        proof {
            use_type_invariant(&*self);
        }
        let ghost before = self.entries@;
        match self.position(target) {
            Some(j) => {
                proof {
                    lemma_lookup(before, j as int);
                }
                let ghost k = target@;
                let mut entries: Vec<(Target, ActionKind)> = Vec::new();
                std::mem::swap(&mut entries, &mut self.entries);
                let (_, previous) = entries.remove(j);
                proof {
                    let after = entries@;
                    assert(after == before.remove(j as int));
                    assert forall|a: int| 0 <= a < after.len() implies #[trigger] after[a] == if a
                        < j {
                        before[a]
                    } else {
                        before[a + 1]
                    } by {}
                    assert forall|a: int, b: int|
                        0 <= a < after.len() && 0 <= b < after.len() && a != b implies #[trigger] after[a].0@
                        != #[trigger] after[b].0@ by {
                        let ia = if a < j {
                            a
                        } else {
                            a + 1
                        };
                        let ib = if b < j {
                            b
                        } else {
                            b + 1
                        };
                        assert(after[a] == before[ia] && after[b] == before[ib]);
                    }
                    assert forall|key: TargetView| #[trigger]
                        has_target(after, key) == (has_target(before, key) && key != k) by {
                        if has_target(before, key) && key != k {
                            let c = choose|c: int|
                                0 <= c < before.len() && #[trigger] before[c].0@ == key;
                            if c < j {
                                assert(after[c] == before[c]);
                            } else {
                                assert(after[c - 1] == before[c]);
                            }
                        }
                        if has_target(after, key) {
                            let c = choose|c: int|
                                0 <= c < after.len() && #[trigger] after[c].0@ == key;
                            let ic = if c < j {
                                c
                            } else {
                                c + 1
                            };
                            assert(after[c] == before[ic]);
                        }
                    }
                    assert forall|key: TargetView| has_target(after, key) implies #[trigger] action_for(
                        after,
                        key,
                    ) == entries_map(before)[key] by {
                        let c = choose|c: int|
                            0 <= c < after.len() && #[trigger] after[c].0@ == key;
                        lemma_lookup(after, c);
                        let ic = if c < j {
                            c
                        } else {
                            c + 1
                        };
                        assert(after[c] == before[ic]);
                        lemma_lookup(before, ic);
                    }
                    assert(entries_map(after) =~= entries_map(before).remove(k));
                }
                self.entries = entries;
                Some(previous)
            },
            None => {
                assert(entries_map(before) =~= entries_map(before).remove(target@));
                None
            },
        }
    }

    /// Whether nothing is in flight.
    pub fn is_empty(&self) -> (r: bool)
        ensures
            r == (self@ == Map::<TargetView, ActionKind>::empty()),
    {
        proof {
            if self.entries@.len() > 0 {
                assert(self@.contains_key(self.entries@[0].0@));
            } else {
                assert(self@ =~= Map::<TargetView, ActionKind>::empty());
            }
        }
        self.entries.len() == 0
    }
}

} // verus!
