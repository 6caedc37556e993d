//! Transactional state handle: a versioned key-value space with a stack of
//! checkpoints. All state the batch pipeline touches goes through this handle;
//! a batch's writes become durable only when its checkpoint commits, and a
//! revert discards every write made since the checkpoint was opened, including
//! writes made under nested checkpoints.

use vstd::prelude::*;

verus! {

/// A key of the rollup's key-value space. Registry-owned keys carry sequencer
/// admission records; module-owned keys carry business-module state.
#[derive(Clone, Copy, PartialEq, Eq, Structural, Debug)]
pub enum StateKey {
    /// Holds 1 while the sequencer with this rollup address is registered.
    SequencerRegistered(u64),
    /// Locked stake of the sequencer with this rollup address.
    SequencerStake(u64),
    /// Data-availability address bound to the sequencer with this rollup address.
    SequencerDa(u64),
    /// Holds 1 while the sequencer with this rollup address has preferred status.
    SequencerPreferred(u64),
    /// Token balance of a module-level account.
    AccountBalance(u64),
}

/// The value a snapshot assigns to `key`, or `None` for an absent key.
pub open spec fn map_get(m: Map<StateKey, u64>, key: StateKey) -> Option<u64> {
    if m.dom().contains(key) {
        Some(m[key])
    } else {
        None
    }
}

/// Last-write-wins lookup in a write log.
pub open spec fn log_lookup(log: Seq<(StateKey, u64)>, key: StateKey) -> Option<u64>
    decreases log.len(),
{
    if log.len() == 0 {
        None
    } else if log.last().0 == key {
        Some(log.last().1)
    } else {
        log_lookup(log.drop_last(), key)
    }
}

/// The transactional state handle. Writes append to a single ordered log;
/// each open checkpoint remembers the log length at which it was opened, so
/// reverting truncates the log and committing merely forgets the mark. Marks
/// are resolved in strict LIFO order.
pub struct StateHandle {
    log: Vec<(StateKey, u64)>,
    marks: Vec<usize>,
}

impl StateHandle {
    /// Marks grow monotonically and never point past the end of the log.
    pub closed spec fn wf(&self) -> bool {
        &&& forall|i: int|
            0 <= i < self.marks@.len() ==> #[trigger] self.marks@[i] <= self.log@.len()
        &&& forall|i: int, j: int|
            0 <= i <= j < self.marks@.len() ==> #[trigger] self.marks@[i] <= #[trigger] self.marks@[j]
    }

    /// Number of open checkpoints.
    pub closed spec fn depth(&self) -> int {
        self.marks@.len() as int
    }

    /// Log position up to which the state seen by checkpoint level `d` extends.
    closed spec fn boundary(&self, d: int) -> int {
        if 0 <= d < self.marks@.len() {
            self.marks@[d] as int
        } else {
            self.log@.len() as int
        }
    }

    /// The key-value snapshot that would result from discarding every write
    /// made since checkpoint `d` was opened; `view_at(depth())` is the
    /// effective state including all pending writes.
    pub closed spec fn view_at(&self, d: int) -> Map<StateKey, u64> {
        Map::new(
            |k: StateKey| log_lookup(self.log@.take(self.boundary(d)), k) is Some,
            |k: StateKey| log_lookup(self.log@.take(self.boundary(d)), k).unwrap(),
        )
    }

    /// The effective state: committed state overlaid with all pending writes.
    pub open spec fn view(&self) -> Map<StateKey, u64> {
        self.view_at(self.depth())
    }

    /// A fresh, empty state with no open checkpoint.
    pub fn new() -> (s: Self)
        ensures
            s.wf(),
            s.depth() == 0,
            s.view() == Map::<StateKey, u64>::empty(),
    {
        let s = StateHandle { log: Vec::new(), marks: Vec::new() };
        proof {
            assert(s.log@.take(0) =~= Seq::<(StateKey, u64)>::empty());
            assert(s.view() =~= Map::<StateKey, u64>::empty());
        }
        s
    }

    /// Number of open checkpoints, for callers that track batch lifecycle.
    pub fn open_checkpoints(&self) -> (n: usize)
        ensures
            n as int == self.depth(),
    {
        self.marks.len()
    }

    /// Opens a checkpoint and returns its identifier. The effective state is
    /// unchanged; the snapshot of every enclosing checkpoint is preserved.
    pub fn checkpoint(&mut self) -> (id: usize)
        requires
            old(self).wf(),
        ensures
            final(self).wf(),
            final(self).depth() == old(self).depth() + 1,
            id as int == old(self).depth(),
            forall|d: int|
                0 <= d <= old(self).depth() ==> final(self).view_at(d) == old(self).view_at(d),
            final(self).view() == old(self).view(),
    {
        let id = self.marks.len();
        let n = self.log.len();
        self.marks.push(n);
        proof {
            assert forall|d: int| 0 <= d <= old(self).depth() implies final(self).view_at(d)
                == old(self).view_at(d) by {
                assert(final(self).boundary(d) == old(self).boundary(d));
                assert(final(self).view_at(d) =~= old(self).view_at(d));
            }
        }
        id
    }

    /// Reads the effective value of `key`.
    pub fn read(&self, key: StateKey) -> (r: Option<u64>)
        requires
            self.wf(),
        ensures
            r == map_get(self.view(), key),
    {
        proof {
            assert(self.log@.take(self.log@.len() as int) =~= self.log@);
        }
        let mut i: usize = self.log.len();
        while i > 0
            invariant
                i <= self.log@.len(),
                log_lookup(self.log@, key) == log_lookup(self.log@.take(i as int), key),
            decreases i,
        {
            i = i - 1;
            let entry = self.log[i];
            proof {
                assert(self.log@.take(self.log@.len() as int) =~= self.log@);
                assert(self.log@.take(i as int + 1).drop_last() =~= self.log@.take(i as int));
                assert(self.log@.take(i as int + 1).last() == self.log@[i as int]);
            }
            if entry.0 == key {
                return Some(entry.1);
            }
        }
        proof {
            assert(self.log@.take(0) =~= Seq::<(StateKey, u64)>::empty());
        }
        None
    }

    /// Writes `value` under `key` in the innermost open scope. The snapshot of
    /// every open checkpoint is preserved: the write is pending until commit.
    pub fn write(&mut self, key: StateKey, value: u64)
        requires
            old(self).wf(),
        ensures
            final(self).wf(),
            final(self).depth() == old(self).depth(),
            final(self).view() == old(self).view().insert(key, value),
            forall|d: int|
                0 <= d < old(self).depth() ==> final(self).view_at(d) == old(self).view_at(d),
    {
        self.log.push((key, value));
        proof {
            assert forall|d: int| 0 <= d < old(self).depth() implies final(self).view_at(d)
                == old(self).view_at(d) by {
                assert(final(self).log@.take(final(self).boundary(d))
                    =~= old(self).log@.take(old(self).boundary(d)));
                assert(final(self).view_at(d) =~= old(self).view_at(d));
            }
            let full = final(self).log@;
            assert(full.take(full.len() as int) =~= full);
            assert(full.drop_last() =~= old(self).log@.take(old(self).log@.len() as int));
            assert(old(self).log@.take(old(self).log@.len() as int) =~= old(self).log@);
            assert(final(self).view() =~= old(self).view().insert(key, value));
        }
    }

    /// Discards every write made since checkpoint `id` was opened, nested
    /// checkpoints included, and closes all checkpoints down to `id`.
    pub fn revert_to(&mut self, id: usize)
        requires
            old(self).wf(),
            id < old(self).depth(),
        ensures
            final(self).wf(),
            final(self).depth() == id as int,
            forall|d: int|
                0 <= d <= id as int ==> final(self).view_at(d) == old(self).view_at(d),
            final(self).view() == old(self).view_at(id as int),
    {
        let b = self.marks[id];
        self.log.truncate(b);
        self.marks.truncate(id);
        proof {
            assert(final(self).log@ =~= old(self).log@.take(b as int));
            assert(final(self).marks@ =~= old(self).marks@.take(id as int));
            assert forall|d: int| 0 <= d <= id as int implies final(self).view_at(d)
                == old(self).view_at(d) by {
                assert(final(self).boundary(d) == old(self).boundary(d));
                assert(final(self).log@.take(final(self).boundary(d))
                    =~= old(self).log@.take(old(self).boundary(d)));
                assert(final(self).view_at(d) =~= old(self).view_at(d));
            }
        }
    }

    /// Resolves the innermost checkpoint, folding its writes into the
    /// enclosing scope (or into durable state when it is the outermost one).
    /// The effective state is unchanged; only durability changes.
    pub fn commit(&mut self, id: usize)
        requires
            old(self).wf(),
            id as int + 1 == old(self).depth(),
        ensures
            final(self).wf(),
            final(self).depth() == id as int,
            forall|d: int|
                0 <= d < id as int ==> final(self).view_at(d) == old(self).view_at(d),
            final(self).view() == old(self).view(),
    {
        self.marks.truncate(id);
        proof {
            assert(final(self).marks@ =~= old(self).marks@.take(id as int));
            assert forall|d: int| 0 <= d < id as int implies final(self).view_at(d)
                == old(self).view_at(d) by {
                assert(final(self).boundary(d) == old(self).boundary(d));
                assert(final(self).view_at(d) =~= old(self).view_at(d));
            }
            assert(final(self).boundary(id as int) == old(self).boundary(old(self).depth()));
            assert(final(self).view() =~= old(self).view());
        }
    }
}

} // verus!
