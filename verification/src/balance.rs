//! Load balancing over a changing set of endpoints. A discovery feed of
//! insert/remove events maintains the set; selection is power-of-two-choices:
//! two of the currently ready endpoints are sampled and the one under lower
//! load wins. The load metric is the pending-call count an endpoint reports.

use vstd::prelude::*;
use crate::endpoint::Endpoint;

verus! {

/// One endpoint known to the balancer, with its discovery key, whether its
/// connection currently reports ready, and its reported load.
#[derive(Debug, Clone)]
pub struct BalancerEntry {
    pub key: u64,
    pub endpoint: Endpoint,
    pub ready: bool,
    pub load: u64,
}

/// A discovery event: a key is inserted (or replaced) with its endpoint, or
/// removed. Keys are unique identifiers chosen by the feed.
#[derive(Debug, Clone)]
pub enum Change {
    Insert(u64, Endpoint),
    Remove(u64),
}

/// The entry a newly discovered endpoint starts as: not yet ready, no load.
pub open spec fn fresh_entry(key: u64, endpoint: Endpoint) -> BalancerEntry {
    BalancerEntry { key, endpoint, ready: false, load: 0 }
}

/// The positions of the ready entries, in order.
pub open spec fn ready_indices(entries: Seq<BalancerEntry>) -> Seq<int>
    decreases entries.len(),
{
    if entries.len() == 0 {
        Seq::empty()
    } else {
        let prefix = ready_indices(entries.drop_last());
        if entries.last().ready {
            prefix.push(entries.len() - 1)
        } else {
            prefix
        }
    }
}

/// Every position listed by `ready_indices` is a ready entry, and the list
/// is empty exactly when no entry is ready.
pub proof fn lemma_ready_indices(entries: Seq<BalancerEntry>)
    ensures
        forall|k: int|
            0 <= k < ready_indices(entries).len() ==> 0 <= #[trigger] ready_indices(entries)[k]
                < entries.len() && entries[ready_indices(entries)[k]].ready,
        ready_indices(entries).len() == 0 <==> (forall|i: int|
            0 <= i < entries.len() ==> !(#[trigger] entries[i].ready)),
    decreases entries.len(),
{
    if entries.len() > 0 {
        let prefix = entries.drop_last();
        lemma_ready_indices(prefix);
        assert(forall|i: int| 0 <= i < prefix.len() ==> prefix[i] == entries[i]);
        if !entries.last().ready {
            if ready_indices(entries).len() == 0 {
                assert forall|i: int| 0 <= i < entries.len() implies !(#[trigger] entries[i].ready) by {
                    if i < prefix.len() {
                        assert(!prefix[i].ready);
                    }
                }
            }
        }
    }
}

/// Which entry a pair of samples selects: nothing when no entry is ready;
/// otherwise the samples pick two positions among the ready entries and the
/// one whose entry is under lower load wins, the first on a tie.
pub open spec fn pick_spec(entries: Seq<BalancerEntry>, a: int, b: int) -> Option<int> {
    let rs = ready_indices(entries);
    if rs.len() == 0 {
        None
    } else {
        let i = rs[a % rs.len() as int];
        let j = rs[b % rs.len() as int];
        Some(
            if entries[i].load <= entries[j].load {
                i
            } else {
                j
            },
        )
    }
}

/// The balancer: the set of currently discovered endpoints, keyed uniquely.
#[derive(Debug, Clone)]
pub struct Balancer {
    pub entries: Vec<BalancerEntry>,
}

impl Balancer {
    /// Discovery keys are unique.
    pub open spec fn wf(&self) -> bool {
        forall|i: int, j: int|
            0 <= i < j < self.entries@.len() ==> #[trigger] self.entries@[i].key
                != #[trigger] self.entries@[j].key
    }

    /// A balancer that has discovered nothing yet.
    pub fn new() -> (b: Balancer)
        ensures
            b.wf(),
            b.entries@.len() == 0,
    {
        Balancer { entries: Vec::new() }
    }

    /// The position of a key, when it is currently discovered.
    fn find(&self, key: u64) -> (r: Option<usize>)
        ensures
            match r {
                Some(i) => i < self.entries@.len() && self.entries@[i as int].key == key,
                None => forall|i: int|
                    0 <= i < self.entries@.len() ==> (#[trigger] self.entries@[i]).key != key,
            },
    {
        let mut i: usize = 0;
        while i < self.entries.len()
            invariant
                i <= self.entries@.len(),
                forall|j: int| 0 <= j < i ==> (#[trigger] self.entries@[j]).key != key,
            decreases self.entries@.len() - i,
        {
            if self.entries[i].key == key {
                return Some(i);
            }
            i = i + 1;
        }
        None
    }

    /// Apply one discovery event. Inserting a key that is already present
    /// replaces its endpoint (the replacement starts unready, as its
    /// connection is yet to be made); inserting a new key adds it; removing
    /// an absent key changes nothing. Removal never touches the other
    /// entries, so calls already routed elsewhere are unaffected.
    pub fn apply_change(&mut self, change: Change)
        requires
            old(self).wf(),
        ensures
            final(self).wf(),
            match change {
                Change::Insert(key, endpoint) => {
                    ||| (exists|i: int|
                        0 <= i < old(self).entries@.len() && (#[trigger] old(
                            self,
                        ).entries@[i]).key == key && final(self).entries@ == old(self).entries@.update(
                            i,
                            fresh_entry(key, endpoint),
                        ))
                    ||| ((forall|i: int|
                        0 <= i < old(self).entries@.len() ==> (#[trigger] old(
                            self,
                        ).entries@[i]).key != key) && final(self).entries@ == old(self).entries@.push(
                        fresh_entry(key, endpoint),
                    ))
                },
                Change::Remove(key) => {
                    ||| (exists|i: int|
                        0 <= i < old(self).entries@.len() && (#[trigger] old(
                            self,
                        ).entries@[i]).key == key && final(self).entries@ == old(self).entries@.remove(i))
                    ||| ((forall|i: int|
                        0 <= i < old(self).entries@.len() ==> (#[trigger] old(
                            self,
                        ).entries@[i]).key != key) && final(self).entries@ == old(self).entries@)
                },
            },
    {
        match change {
            Change::Insert(key, endpoint) => {
                let entry = BalancerEntry { key, endpoint, ready: false, load: 0 };
                match self.find(key) {
                    Some(i) => {
                        let ghost before = self.entries@;
                        self.entries.remove(i);
                        self.entries.insert(i, entry);
                        proof {
                            assert(self.entries@ =~= before.update(i as int, fresh_entry(key, entry.endpoint)));
                        }
                    },
                    None => {
                        self.entries.push(entry);
                    },
                }
            },
            Change::Remove(key) => {
                match self.find(key) {
                    Some(i) => {
                        self.entries.remove(i);
                    },
                    None => {},
                }
            },
        }
    }

    /// Record what an endpoint's connection reports: whether it is ready,
    /// and its pending-call load. Reports about unknown keys are ignored.
    pub fn set_status(&mut self, key: u64, ready: bool, load: u64)
        requires
            old(self).wf(),
        ensures
            final(self).wf(),
            (exists|i: int|
                0 <= i < old(self).entries@.len() && (#[trigger] old(self).entries@[i]).key == key
                    && final(self).entries@ == old(self).entries@.update(
                    i,
                    (BalancerEntry { key, endpoint: old(self).entries@[i].endpoint, ready, load }),
                )) || ((forall|i: int|
                0 <= i < old(self).entries@.len() ==> (#[trigger] old(self).entries@[i]).key
                    != key) && final(self).entries@ == old(self).entries@),
    {
        match self.find(key) {
            Some(i) => {
                let ghost before = self.entries@;
                let entry = self.entries.remove(i);
                let updated = BalancerEntry { key, endpoint: entry.endpoint, ready, load };
                self.entries.insert(i, updated);
                proof {
                    assert(self.entries@ =~= before.update(
                        i as int,
                        BalancerEntry { key, endpoint: before[i as int].endpoint, ready, load },
                    ));
                }
            },
            None => {},
        }
    }

    /// Select an endpoint by power-of-two-choices. The two samples `a` and
    /// `b` come from the caller's source of randomness; they address the
    /// currently ready entries, and the sampled entry under lower load is
    /// selected. No entry ready means nothing to select: the caller suspends
    /// until discovery or readiness changes.
    pub fn pick(&self, a: usize, b: usize) -> (r: Option<usize>)
        ensures
            match r {
                Some(idx) => pick_spec(self.entries@, a as int, b as int) == Some(idx as int)
                    && idx < self.entries@.len() && self.entries@[idx as int].ready,
                None => pick_spec(self.entries@, a as int, b as int) is None && (forall|i: int|
                    0 <= i < self.entries@.len() ==> !(#[trigger] self.entries@[i].ready)),
            },
    {
        let mut ridx: Vec<usize> = Vec::new();
        let mut i: usize = 0;
        while i < self.entries.len()
            invariant
                i <= self.entries@.len(),
                ridx@.map_values(|x: usize| x as int) == ready_indices(self.entries@.take(i as int)),
                forall|k: int| 0 <= k < ridx@.len() ==> #[trigger] ridx@[k] < self.entries@.len(),
            decreases self.entries@.len() - i,
        {
            let ghost prev = self.entries@.take(i as int);
            let ghost cur = self.entries@.take(i as int + 1);
            proof {
                assert(cur.drop_last() =~= prev);
                assert(cur.last() == self.entries@[i as int]);
            }
            if self.entries[i].ready {
                ridx.push(i);
                proof {
                    assert(ridx@.map_values(|x: usize| x as int) =~= ready_indices(cur));
                }
            } else {
                proof {
                    assert(ready_indices(cur) == ready_indices(prev));
                }
            }
            i = i + 1;
        }
        proof {
            assert(self.entries@.take(self.entries@.len() as int) =~= self.entries@);
            lemma_ready_indices(self.entries@);
        }
        let m = ridx.len();
        if m == 0 {
            None
        } else {
            let ia = ridx[a % m];
            let ib = ridx[b % m];
            let chosen = if self.entries[ia].load <= self.entries[ib].load {
                ia
            } else {
                ib
            };
            proof {
                let rs = ready_indices(self.entries@);
                assert(rs[a as int % rs.len() as int] == ridx@[(a % m) as int] as int);
                assert(rs[b as int % rs.len() as int] == ridx@[(b % m) as int] as int);
            }
            Some(chosen)
        }
    }
}

/// Liveness of selection: with no entry ready nothing is selected, and as
/// soon as one entry is ready every pair of samples selects a ready entry.
pub proof fn law_pick_liveness(entries: Seq<BalancerEntry>, a: int, b: int)
    requires
        0 <= a,
        0 <= b,
    ensures
        pick_spec(entries, a, b) is None <==> (forall|i: int|
            0 <= i < entries.len() ==> !(#[trigger] entries[i].ready)),
        pick_spec(entries, a, b) matches Some(idx) ==> 0 <= idx < entries.len()
            && entries[idx].ready,
{
    lemma_ready_indices(entries);
    let rs = ready_indices(entries);
    if rs.len() > 0 {
        assert(0 <= a % (rs.len() as int) < rs.len());
        assert(0 <= b % (rs.len() as int) < rs.len());
    }
}

} // verus!
