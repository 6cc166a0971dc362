//! The externref read and write barriers, as the emitted code executes them
//! against the runtime: reference counts, table and global slots, and the
//! activations table that roots references on their way to the stack.
use vstd::prelude::*;

verus! {

broadcast use {vstd::multiset::group_multiset_axioms, vstd::seq_lib::group_to_multiset_ensures};

/// How a read barrier rooted the reference it read.
#[derive(Clone, Copy, Debug, PartialEq, Eq, Structural)]
pub enum ReadPath {
    /// The slot was null: nothing to root.
    Null,
    /// The bump region had room: count incremented, reference stored at
    /// `next`, `next` advanced.
    Bump,
    /// The bump region was full (`next == end`): the insert-with-GC builtin
    /// was called. This model keeps only what the builtin guarantees of the
    /// reference read, that it is rooted with one more count; the
    /// collection the builtin may run first is the runtime's and is left
    /// out, as is any change it makes to the bump region.
    InsertWithGc,
}

/// References are numbered from 1; 0 is the null reference. `refcounts[id]`
/// is the count in the header of reference `id`.
#[derive(Debug)]
pub struct ExternRefs {
    /// Slots of an externref table.
    pub table: Vec<u64>,
    /// Externref globals.
    pub globals: Vec<u64>,
    /// References rooted by the activations table.
    pub activations: Vec<u64>,
    /// Filled slots of the bump region (`next`), out of `bump_capacity`
    /// (`end`).
    pub bump_used: usize,
    pub bump_capacity: usize,
    pub refcounts: Vec<u64>,
    /// References handed to the drop builtin, in order.
    pub dropped: Vec<u64>,
}

impl ExternRefs {
    /// Number of places that hold reference `id`: table slots, globals and
    /// activations-table entries.
    pub open spec fn holders(&self, id: u64) -> int {
        (self.table@.to_multiset().count(id) + self.globals@.to_multiset().count(id)
            + self.activations@.to_multiset().count(id)) as int
    }

    /// Every stored reference is known, and no count is below the number of
    /// its holders.
    pub open spec fn wf(&self) -> bool {
        &&& forall|j: int| 0 <= j < self.table@.len() ==> self.table@[j] < self.refcounts@.len()
        &&& forall|j: int| 0 <= j < self.globals@.len() ==> self.globals@[j] < self.refcounts@.len()
        &&& forall|j: int|
            0 <= j < self.activations@.len() ==> self.activations@[j] < self.refcounts@.len()
        &&& forall|id: u64|
            0 < id < self.refcounts@.len() ==> #[trigger] self.refcounts@[id as int] >= self.holders(id)
        &&& self.bump_used <= self.bump_capacity
    }

    /// From `self` to `next`, every reference's count moved by exactly the
    /// change in the number of its holders.
    pub open spec fn balanced_with(&self, next: &ExternRefs) -> bool {
        &&& next.refcounts@.len() == self.refcounts@.len()
        &&& forall|id: u64|
            0 < id < self.refcounts@.len() ==> #[trigger] next.refcounts@[id as int]
                - self.refcounts@[id as int] == next.holders(id) - self.holders(id)
    }

    /// The count of `id` can take one more increment.
    pub open spec fn can_increment(&self, id: u64) -> bool {
        id != 0 ==> (id < self.refcounts@.len() && self.refcounts@[id as int] < u64::MAX)
    }

    /// Roots a non-null reference in the activations table; through the bump
    /// region if it has room, else through the insert-with-GC builtin.
    fn root(&mut self, elem: u64) -> (path: ReadPath)
        requires
            old(self).wf(),
            0 < elem < old(self).refcounts@.len(),
            old(self).refcounts@[elem as int] < u64::MAX,
        ensures
            final(self).wf(),
            old(self).balanced_with(&*final(self)),
            final(self).table@ == old(self).table@,
            final(self).globals@ == old(self).globals@,
            final(self).activations@ == old(self).activations@.push(elem),
            final(self).refcounts@ == old(self).refcounts@.update(
                elem as int,
                (old(self).refcounts@[elem as int] + 1) as u64,
            ),
            final(self).dropped@ == old(self).dropped@,
            final(self).bump_capacity == old(self).bump_capacity,
            old(self).bump_used < old(self).bump_capacity ==> path == ReadPath::Bump
                && final(self).bump_used == old(self).bump_used + 1,
            old(self).bump_used == old(self).bump_capacity ==> path == ReadPath::InsertWithGc
                && final(self).bump_used == old(self).bump_used,
    {
        let ghost pre = *self;
        let path = if self.bump_used == self.bump_capacity {
            ReadPath::InsertWithGc
        } else {
            self.bump_used = self.bump_used + 1;
            ReadPath::Bump
        };
        let n = self.refcounts.len();
        assert(elem < n);
        let k = elem as usize;
        let c = self.refcounts[k];
        self.refcounts.set(k, c + 1);
        self.activations.push(elem);
        assert forall|id: u64| 0 < id < self.refcounts@.len() implies #[trigger] self.refcounts@[id as int]
            - pre.refcounts@[id as int] == self.holders(id) - pre.holders(id) by {
            assert(self.activations@.to_multiset() =~= pre.activations@.to_multiset().insert(elem));
        }
        assert forall|id: u64| 0 < id < self.refcounts@.len() implies #[trigger] self.refcounts@[id as int]
            >= self.holders(id) by {
            assert(pre.refcounts@[id as int] >= pre.holders(id));
        }
        path
    }

    /// The read barrier of `table.get` on an externref table: a non-null
    /// element gets one more count and a place in the activations table
    /// before it reaches the stack.
    pub fn table_get(&mut self, index: usize) -> (r: (u64, ReadPath))
        requires
            old(self).wf(),
            index < old(self).table@.len(),
            old(self).can_increment(old(self).table@[index as int]),
        ensures
            final(self).wf(),
            old(self).balanced_with(&*final(self)),
            r.0 == old(self).table@[index as int],
            final(self).table@ == old(self).table@,
            final(self).globals@ == old(self).globals@,
            final(self).dropped@ == old(self).dropped@,
            r.0 == 0 ==> r.1 == ReadPath::Null && final(self).activations@ == old(self).activations@
                && final(self).refcounts@ == old(self).refcounts@ && final(self).bump_used
                == old(self).bump_used,
            r.0 != 0 ==> {
                &&& final(self).activations@ == old(self).activations@.push(r.0)
                &&& final(self).refcounts@ == old(self).refcounts@.update(
                    r.0 as int,
                    (old(self).refcounts@[r.0 as int] + 1) as u64,
                )
                &&& r.1 == (if old(self).bump_used < old(self).bump_capacity {
                    ReadPath::Bump
                } else {
                    ReadPath::InsertWithGc
                })
                &&& r.1 == ReadPath::Bump ==> final(self).bump_used == old(self).bump_used + 1
                &&& r.1 == ReadPath::InsertWithGc ==> final(self).bump_used == old(self).bump_used
            },
            final(self).bump_capacity == old(self).bump_capacity,
    {
        let elem = self.table[index];
        if elem == 0 {
            (elem, ReadPath::Null)
        } else {
            let path = self.root(elem);
            (elem, path)
        }
    }

    /// `global.get` of an externref global, through the builtin that roots
    /// the value in the activations table.
    pub fn global_get(&mut self, index: usize) -> (r: u64)
        requires
            old(self).wf(),
            index < old(self).globals@.len(),
            old(self).can_increment(old(self).globals@[index as int]),
        ensures
            final(self).wf(),
            old(self).balanced_with(&*final(self)),
            r == old(self).globals@[index as int],
            final(self).table@ == old(self).table@,
            final(self).globals@ == old(self).globals@,
            final(self).dropped@ == old(self).dropped@,
            r == 0 ==> final(self).activations@ == old(self).activations@ && final(self).refcounts@
                == old(self).refcounts@,
            r != 0 ==> final(self).activations@ == old(self).activations@.push(r)
                && final(self).refcounts@ == old(self).refcounts@.update(
                r as int,
                (old(self).refcounts@[r as int] + 1) as u64,
            ),
    {
        let elem = self.globals[index];
        if elem != 0 {
            let _ = self.root(elem);
        }
        elem
    }

    /// Counts after a write barrier stores `value` over `old`: `value` is
    /// incremented first, then `old` decremented.
    pub open spec fn counts_after_write(rc: Seq<u64>, value: u64, old: u64) -> Seq<u64> {
        let a = if value != 0 {
            rc.update(value as int, (rc[value as int] + 1) as u64)
        } else {
            rc
        };
        if old != 0 {
            a.update(old as int, (a[old as int] - 1) as u64)
        } else {
            a
        }
    }

    /// The old value's count before its decrement was 1: it is dropped.
    pub open spec fn write_drops(rc: Seq<u64>, value: u64, old: u64) -> bool {
        let before: int = if value == old { rc[old as int] + 1 } else { rc[old as int] as int };
        old != 0 && before == 1
    }

    /// The write barrier, on a table slot (`in_table`) or a global.
    fn write_barrier(&mut self, in_table: bool, index: usize, value: u64) -> (dropped: bool)
        requires
            old(self).wf(),
            in_table ==> index < old(self).table@.len(),
            !in_table ==> index < old(self).globals@.len(),
            old(self).can_increment(value),
        ensures
            ({
                let prev = if in_table {
                    old(self).table@[index as int]
                } else {
                    old(self).globals@[index as int]
                };
                &&& final(self).wf()
                &&& old(self).balanced_with(&*final(self))
                &&& in_table ==> final(self).table@ == old(self).table@.update(index as int, value)
                    && final(self).globals@ == old(self).globals@
                &&& !in_table ==> final(self).globals@ == old(self).globals@.update(index as int, value)
                    && final(self).table@ == old(self).table@
                &&& final(self).activations@ == old(self).activations@
                &&& final(self).bump_used == old(self).bump_used
                &&& final(self).bump_capacity == old(self).bump_capacity
                &&& final(self).refcounts@ == Self::counts_after_write(old(self).refcounts@, value, prev)
                &&& dropped == Self::write_drops(old(self).refcounts@, value, prev)
                &&& dropped ==> final(self).dropped@ == old(self).dropped@.push(prev)
                &&& !dropped ==> final(self).dropped@ == old(self).dropped@
            }),
    {
        let ghost pre = *self;
        let n = self.refcounts.len();
        if value != 0 {
            assert(value < n);
            let k = value as usize;
            let c = self.refcounts[k];
            self.refcounts.set(k, c + 1);
        }
        let ghost mid = self.refcounts@;
        let prev = if in_table {
            let p = self.table[index];
            self.table.set(index, value);
            p
        } else {
            let p = self.globals[index];
            self.globals.set(index, value);
            p
        };
        proof {
            if in_table {
                assert(self.table@.to_multiset() =~= pre.table@.to_multiset().insert(value).remove(prev));
                assert(pre.table@.contains(prev)) by { assert(pre.table@[index as int] == prev); }
                assert(self.globals@ =~= pre.globals@);
            } else {
                assert(self.globals@.to_multiset() =~= pre.globals@.to_multiset().insert(value).remove(prev));
                assert(pre.globals@.contains(prev)) by { assert(pre.globals@[index as int] == prev); }
                assert(self.table@ =~= pre.table@);
            }
            assert(pre.holders(prev) >= 1);
        }
        let mut dropped = false;
        if prev != 0 {
            assert(prev < n);
            let k = prev as usize;
            let c = self.refcounts[k];
            assert(c >= 1) by {
                assert(pre.refcounts@[prev as int] >= pre.holders(prev));
            }
            self.refcounts.set(k, c - 1);
            if c == 1 {
                self.dropped.push(prev);
                dropped = true;
            }
        }
        assert(self.refcounts@ =~= Self::counts_after_write(pre.refcounts@, value, prev));
        assert forall|id: u64| 0 < id < self.refcounts@.len() implies #[trigger] self.refcounts@[id as int]
            - pre.refcounts@[id as int] == self.holders(id) - pre.holders(id) by {
            if in_table {
                assert(self.table@.to_multiset() =~= pre.table@.to_multiset().insert(value).remove(prev));
            } else {
                assert(self.globals@.to_multiset() =~= pre.globals@.to_multiset().insert(value).remove(prev));
            }
        }
        assert forall|id: u64| 0 < id < self.refcounts@.len() implies #[trigger] self.refcounts@[id as int]
            >= self.holders(id) by {
            assert(pre.refcounts@[id as int] >= pre.holders(id));
        }
        assert forall|j: int| 0 <= j < self.table@.len() implies self.table@[j] < self.refcounts@.len() by {
            if in_table && j != index {
                assert(self.table@[j] == pre.table@[j]);
            }
        }
        assert forall|j: int| 0 <= j < self.globals@.len() implies self.globals@[j] < self.refcounts@.len() by {
            if !in_table && j != index {
                assert(self.globals@[j] == pre.globals@[j]);
            }
        }
        dropped
    }

    /// The write barrier of `table.set` on an externref table: the new value
    /// gains a count before the store, the old one loses its count after it,
    /// and is dropped when that was its last.
    pub fn table_set(&mut self, index: usize, value: u64) -> (dropped: bool)
        requires
            old(self).wf(),
            index < old(self).table@.len(),
            old(self).can_increment(value),
        ensures
            ({
                let prev = old(self).table@[index as int];
                &&& final(self).wf()
                &&& old(self).balanced_with(&*final(self))
                &&& final(self).table@ == old(self).table@.update(index as int, value)
                &&& final(self).globals@ == old(self).globals@
                &&& final(self).activations@ == old(self).activations@
                &&& final(self).refcounts@ == Self::counts_after_write(old(self).refcounts@, value, prev)
                &&& dropped == Self::write_drops(old(self).refcounts@, value, prev)
                &&& dropped ==> final(self).dropped@ == old(self).dropped@.push(prev)
                &&& !dropped ==> final(self).dropped@ == old(self).dropped@
                &&& final(self).bump_used == old(self).bump_used
                &&& final(self).bump_capacity == old(self).bump_capacity
                &&& prev == value ==> !dropped
            }),
    {
        let ghost prev = self.table@[index as int];
        proof {
            if prev == value && value != 0 {
                assert(self.table@.contains(prev)) by { assert(self.table@[index as int] == prev); }
                assert(self.refcounts@[prev as int] >= self.holders(prev));
            }
        }
        self.write_barrier(true, index, value)
    }

    /// `global.set` of an externref global, through the builtin that runs
    /// the same write barrier on the global.
    pub fn global_set(&mut self, index: usize, value: u64) -> (dropped: bool)
        requires
            old(self).wf(),
            index < old(self).globals@.len(),
            old(self).can_increment(value),
        ensures
            ({
                let prev = old(self).globals@[index as int];
                &&& final(self).wf()
                &&& old(self).balanced_with(&*final(self))
                &&& final(self).globals@ == old(self).globals@.update(index as int, value)
                &&& final(self).table@ == old(self).table@
                &&& final(self).activations@ == old(self).activations@
                &&& final(self).refcounts@ == Self::counts_after_write(old(self).refcounts@, value, prev)
                &&& dropped == Self::write_drops(old(self).refcounts@, value, prev)
                &&& dropped ==> final(self).dropped@ == old(self).dropped@.push(prev)
                &&& !dropped ==> final(self).dropped@ == old(self).dropped@
                &&& final(self).bump_used == old(self).bump_used
                &&& final(self).bump_capacity == old(self).bump_capacity
                &&& prev == value ==> !dropped
            }),
    {
        let ghost prev = self.globals@[index as int];
        proof {
            if prev == value && value != 0 {
                assert(self.globals@.contains(prev)) by { assert(self.globals@[index as int] == prev); }
                assert(self.refcounts@[prev as int] >= self.holders(prev));
            }
        }
        self.write_barrier(false, index, value)
    }
}

/// Over any interleaving of barriers, each step of which keeps counts and
/// holders in step, the net change of every reference's count equals the
/// net change in the number of its holders.
pub proof fn lemma_refcount_balance(states: Seq<ExternRefs>)
    requires
        states.len() >= 1,
        forall|k: int| 0 <= k < states.len() - 1 ==> #[trigger] states[k].balanced_with(&states[k + 1]),
    ensures
        states[0].balanced_with(&states[states.len() - 1]),
    decreases states.len(),
{
    if states.len() > 1 {
        let prefix = states.drop_last();
        assert forall|k: int| 0 <= k < prefix.len() - 1 implies #[trigger] prefix[k].balanced_with(
            &prefix[k + 1],
        ) by {
            assert(states[k].balanced_with(&states[k + 1]));
        }
        lemma_refcount_balance(prefix);
        let a = states[0];
        let b = states[states.len() - 2];
        let c = states[states.len() - 1];
        let k = states.len() - 2;
        assert(states[k].balanced_with(&states[k + 1]));
        assert forall|id: u64| 0 < id < a.refcounts@.len() implies #[trigger] c.refcounts@[id as int]
            - a.refcounts@[id as int] == c.holders(id) - a.holders(id) by {
            assert(c.refcounts@[id as int] - b.refcounts@[id as int] == c.holders(id) - b.holders(id));
            assert(b.refcounts@[id as int] - a.refcounts@[id as int] == b.holders(id) - a.holders(id));
        }
    }
}

} // verus!
