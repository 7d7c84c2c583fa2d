use std::collections::HashMap;
use vstd::prelude::*;

verus! {

/// An event emitted while executing a transaction.
#[derive(Clone, Debug, PartialEq, Eq)]
pub struct Event {
    pub key: Vec<u8>,
    pub value: Vec<u8>,
}

/// The store that results from applying `writes`, in order, on top of `base`.
pub open spec fn apply_writes(base: Map<u64, u64>, writes: Seq<(u64, u64)>) -> Map<u64, u64>
    decreases writes.len(),
{
    if writes.len() == 0 {
        base
    } else {
        apply_writes(base, writes.drop_last()).insert(writes.last().0, writes.last().1)
    }
}

/// Abstract value of a working set: the checkpoint it was opened from, the writes
/// staged on top of it, and the events buffered since it was opened.
pub struct WorkingSetModel {
    pub committed: Map<u64, u64>,
    pub writes: Seq<(u64, u64)>,
    pub events: Seq<Event>,
}

/// A working set freshly opened from the checkpoint `c`.
pub open spec fn opened(c: Map<u64, u64>) -> WorkingSetModel {
    WorkingSetModel { committed: c, writes: Seq::empty(), events: Seq::empty() }
}

/// The working set `m` after staging the writes `w`.
pub open spec fn staged(m: WorkingSetModel, w: Seq<(u64, u64)>) -> WorkingSetModel {
    WorkingSetModel { writes: m.writes + w, ..m }
}

/// The state that a working set shows to its readers.
pub open spec fn current(m: WorkingSetModel) -> Map<u64, u64> {
    apply_writes(m.committed, m.writes)
}

/// The checkpoint that committing the working set yields.
pub open spec fn committed_of(m: WorkingSetModel) -> Map<u64, u64> {
    current(m)
}

/// The checkpoint that reverting the working set yields.
pub open spec fn reverted_of(m: WorkingSetModel) -> Map<u64, u64> {
    m.committed
}

/// A frozen restore point of the global key-value state.
pub struct StateCheckpoint {
    store: HashMap<u64, u64>,
}

impl View for StateCheckpoint {
    type V = Map<u64, u64>;

    closed spec fn view(&self) -> Map<u64, u64> {
        self.store@
    }
}

impl StateCheckpoint {
    /// An empty state.
    pub fn new() -> (r: StateCheckpoint)
        ensures
            r@ == Map::<u64, u64>::empty(),
    {
        StateCheckpoint { store: HashMap::new() }
    }

    /// The committed value stored under `key`.
    pub fn get(&self, key: u64) -> (r: Option<u64>)
        ensures
            r == (if self@.contains_key(key) { Some(self@[key]) } else { None::<u64> }),
    {
        match self.store.get(&key) {
            Some(v) => Some(*v),
            None => None,
        }
    }

    /// Opens a working set on top of this checkpoint.
    pub fn to_revertable(self) -> (r: WorkingSet)
        ensures
            r@ == opened(self@),
    {
        WorkingSet { checkpoint: self, writes: Vec::new(), events: Vec::new() }
    }
}

/// A transactional view over a checkpoint: writes are staged and events buffered
/// until the working set is committed into a new checkpoint or reverted.
pub struct WorkingSet {
    checkpoint: StateCheckpoint,
    writes: Vec<(u64, u64)>,
    events: Vec<Event>,
}

impl View for WorkingSet {
    type V = WorkingSetModel;

    closed spec fn view(&self) -> WorkingSetModel {
        WorkingSetModel { committed: self.checkpoint@, writes: self.writes@, events: self.events@ }
    }
}

proof fn lemma_last_write_wins(base: Map<u64, u64>, writes: Seq<(u64, u64)>, i: int)
    requires
        0 <= i < writes.len(),
        forall|j: int| i < j < writes.len() ==> writes[j].0 != writes[i].0,
    ensures
        apply_writes(base, writes).contains_key(writes[i].0),
        apply_writes(base, writes)[writes[i].0] == writes[i].1,
    decreases writes.len(),
{
    if i < writes.len() - 1 {
        lemma_last_write_wins(base, writes.drop_last(), i);
    }
}

proof fn lemma_unwritten_key(base: Map<u64, u64>, writes: Seq<(u64, u64)>, k: u64)
    requires
        forall|j: int| 0 <= j < writes.len() ==> writes[j].0 != k,
    ensures
        apply_writes(base, writes).contains_key(k) == base.contains_key(k),
        base.contains_key(k) ==> apply_writes(base, writes)[k] == base[k],
    decreases writes.len(),
{
    if writes.len() > 0 {
        lemma_unwritten_key(base, writes.drop_last(), k);
    }
}

/// Applying two runs of writes one after the other is applying their concatenation.
pub proof fn lemma_apply_writes_concat(
    base: Map<u64, u64>,
    a: Seq<(u64, u64)>,
    b: Seq<(u64, u64)>,
)
    ensures
        apply_writes(apply_writes(base, a), b) == apply_writes(base, a + b),
    decreases b.len(),
{
    if b.len() == 0 {
        assert(a + b =~= a);
    } else {
        lemma_apply_writes_concat(base, a, b.drop_last());
        assert((a + b).drop_last() =~= a + b.drop_last());
    }
}

impl WorkingSet {
    /// The value that a reader of this working set sees under `key`.
    pub fn get(&self, key: u64) -> (r: Option<u64>)
        ensures
            r == (if current(self@).contains_key(key) {
                Some(current(self@)[key])
            } else {
                None::<u64>
            }),
    {
        let mut i: usize = self.writes.len();
        while i > 0
            invariant
                i <= self.writes@.len(),
                forall|j: int| i <= j < self.writes@.len() ==> self.writes@[j].0 != key,
            decreases i,
        {
            let (k, v) = self.writes[i - 1];
            if k == key {
                proof {
                    lemma_last_write_wins(self.checkpoint@, self.writes@, i - 1);
                }
                return Some(v);
            }
            i = i - 1;
        }
        proof {
            lemma_unwritten_key(self.checkpoint@, self.writes@, key);
        }
        self.checkpoint.get(key)
    }

    /// Stages a write of `value` under `key`.
    pub fn set(&mut self, key: u64, value: u64)
        ensures
            final(self)@ == staged(old(self)@, seq![(key, value)]),
            current(final(self)@) == current(old(self)@).insert(key, value),
    {
        self.writes.push((key, value));
        proof {
            assert(self.writes@.drop_last() =~= old(self).writes@);
            assert(self.writes@ =~= old(self).writes@ + seq![(key, value)]);
        }
    }

    /// Buffers an event.
    pub fn emit_event(&mut self, event: Event)
        ensures
            final(self)@ == (WorkingSetModel { events: old(self)@.events.push(event), ..old(self)@ }),
    {
        self.events.push(event);
    }

    /// Removes and returns the buffered events, in the order they were emitted.
    pub fn take_events(&mut self) -> (r: Vec<Event>)
        ensures
            r@ == old(self)@.events,
            final(self)@ == (WorkingSetModel { events: Seq::empty(), ..old(self)@ }),
    {
        let mut taken: Vec<Event> = Vec::new();
        std::mem::swap(&mut taken, &mut self.events);
        taken
    }

    /// Freezes the staged writes into a new checkpoint; buffered events are dropped.
    pub fn checkpoint(self) -> (r: StateCheckpoint)
        ensures
            r@ == committed_of(self@),
    {
        let WorkingSet { checkpoint, writes, events: _ } = self;
        let mut store = checkpoint.store;
        let mut i: usize = 0;
        while i < writes.len()
            invariant
                i <= writes@.len(),
                store@ == apply_writes(checkpoint@, writes@.take(i as int)),
            decreases writes@.len() - i,
        {
            let (k, v) = writes[i];
            store.insert(k, v);
            proof {
                assert(writes@.take(i + 1).drop_last() =~= writes@.take(i as int));
            }
            i = i + 1;
        }
        proof {
            assert(writes@.take(i as int) =~= writes@);
        }
        StateCheckpoint { store }
    }

    /// Discards the staged writes and buffered events, yielding the checkpoint
    /// this working set was opened from.
    pub fn revert(self) -> (r: StateCheckpoint)
        ensures
            r@ == reverted_of(self@),
    {
        self.checkpoint
    }
}

/// Reverting a working set yields the same state as a working set that was opened
/// from the same checkpoint and never advanced: whatever was staged is gone.
pub proof fn lemma_revert_idempotent(c: Map<u64, u64>, w: Seq<(u64, u64)>)
    ensures
        reverted_of(staged(opened(c), w)) == committed_of(opened(c)),
        committed_of(opened(c)) == c,
{
}

/// Staging A, then staging B, then reverting is the same as never staging either.
pub proof fn lemma_revert_discards_both(
    c: Map<u64, u64>,
    a: Seq<(u64, u64)>,
    b: Seq<(u64, u64)>,
)
    ensures
        reverted_of(staged(staged(opened(c), a), b)) == c,
{
}

/// Committing A and then committing B on the resulting checkpoint is the same as
/// committing A followed by B at once.
pub proof fn lemma_commit_composes(c: Map<u64, u64>, a: Seq<(u64, u64)>, b: Seq<(u64, u64)>)
    ensures
        committed_of(staged(opened(committed_of(staged(opened(c), a))), b)) == committed_of(
            staged(opened(c), a + b),
        ),
{
    assert(Seq::<(u64, u64)>::empty() + a =~= a);
    assert(Seq::<(u64, u64)>::empty() + b =~= b);
    assert(Seq::<(u64, u64)>::empty() + (a + b) =~= a + b);
    lemma_apply_writes_concat(c, a, b);
}

} // verus!
