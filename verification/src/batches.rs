//! The batch ledger: a registry of client batches, each holding a stack of
//! content pins per content key. Batch identifiers are allocated
//! monotonically and never reused; a key's entry lives in a batch exactly
//! while its pin stack is non-empty; deleting a batch drops every pin it
//! held.
//!
//! The ledger is a plain structure; an embedder that shares it between tasks
//! guards it with one exclusive lock, which makes the four operations
//! linearizable with respect to each other.

use vstd::prelude::*;

use crate::content::{BatchId, ContentPin, DownloadError, HashAndFormat};

verus! {

// ---------------------------------------------------------------------------
// Association lists viewed as maps
// ---------------------------------------------------------------------------

/// No two pairs of `s` share a key.
pub open spec fn distinct_keys<K, V>(s: Seq<(K, V)>) -> bool {
    forall|i: int, j: int|
        0 <= i < j < s.len() ==> (#[trigger] s[i]).0 != (#[trigger] s[j]).0
}

/// The map an association list stands for (later pairs shadow earlier ones;
/// with distinct keys there is nothing to shadow).
pub open spec fn amap<K, V>(s: Seq<(K, V)>) -> Map<K, V>
    decreases s.len(),
{
    if s.len() == 0 {
        Map::empty()
    } else {
        amap(s.drop_last()).insert(s.last().0, s.last().1)
    }
}

proof fn lemma_amap_contains<K, V>(s: Seq<(K, V)>, k: K)
    ensures
        amap(s).contains_key(k) <==> exists|i: int|
            0 <= i < s.len() && (#[trigger] s[i]).0 == k,
    decreases s.len(),
{
    if s.len() > 0 {
        lemma_amap_contains(s.drop_last(), k);
        if s.last().0 == k {
            assert(s[s.len() - 1].0 == k);
        } else {
            if exists|i: int| 0 <= i < s.len() && (#[trigger] s[i]).0 == k {
                let i = choose|i: int| 0 <= i < s.len() && (#[trigger] s[i]).0 == k;
                assert((s.drop_last()[i]).0 == k);
            }
        }
    }
}

proof fn lemma_amap_index<K, V>(s: Seq<(K, V)>, i: int)
    requires
        distinct_keys(s),
        0 <= i < s.len(),
    ensures
        amap(s).contains_key(s[i].0),
        amap(s)[s[i].0] == s[i].1,
    decreases s.len(),
{
    if i < s.len() - 1 {
        lemma_amap_index(s.drop_last(), i);
        assert(s[i].0 != s.last().0);
    }
}

proof fn lemma_amap_push<K, V>(s: Seq<(K, V)>, k: K, v: V)
    requires
        forall|i: int| 0 <= i < s.len() ==> (#[trigger] s[i]).0 != k,
    ensures
        amap(s.push((k, v))) == amap(s).insert(k, v),
        distinct_keys(s) ==> distinct_keys(s.push((k, v))),
{
    assert(s.push((k, v)).drop_last() =~= s);
    assert(s.push((k, v)).last() == (k, v));
}

proof fn lemma_amap_update<K, V>(s: Seq<(K, V)>, i: int, v: V)
    requires
        distinct_keys(s),
        0 <= i < s.len(),
    ensures
        amap(s.update(i, (s[i].0, v))) == amap(s).insert(s[i].0, v),
        distinct_keys(s.update(i, (s[i].0, v))),
    decreases s.len(),
{
    let t = s.update(i, (s[i].0, v));
    if i == s.len() - 1 {
        assert(t.drop_last() =~= s.drop_last());
        assert(t.last() == (s[i].0, v));
        assert(amap(t) == amap(s.drop_last()).insert(s[i].0, v));
        assert(amap(s).insert(s[i].0, v) =~= amap(s.drop_last()).insert(s[i].0, v));
    } else {
        lemma_amap_update(s.drop_last(), i, v);
        assert(t.drop_last() =~= s.drop_last().update(i, (s[i].0, v)));
        assert(t.last() == s.last());
        assert(s[i].0 != s.last().0);
        assert(amap(s.drop_last()).insert(s[i].0, v).insert(s.last().0, s.last().1) =~= amap(
            s.drop_last(),
        ).insert(s.last().0, s.last().1).insert(s[i].0, v));
    }
}

proof fn lemma_amap_remove<K, V>(s: Seq<(K, V)>, i: int)
    requires
        distinct_keys(s),
        0 <= i < s.len(),
    ensures
        amap(s.remove(i)) == amap(s).remove(s[i].0),
        distinct_keys(s.remove(i)),
    decreases s.len(),
{
    if i == s.len() - 1 {
        assert(s.remove(i) =~= s.drop_last());
        lemma_amap_contains(s.drop_last(), s[i].0);
        assert(forall|j: int|
            0 <= j < s.drop_last().len() ==> (#[trigger] s.drop_last()[j]).0 != s[i].0);
        assert(amap(s.drop_last()) =~= amap(s.drop_last()).insert(s.last().0, s.last().1).remove(
            s[i].0,
        ));
    } else {
        lemma_amap_remove(s.drop_last(), i);
        assert(s.remove(i).drop_last() =~= s.drop_last().remove(i));
        assert(s.remove(i).last() == s.last());
        assert(s[i].0 != s.last().0);
        assert(amap(s.drop_last()).remove(s[i].0).insert(s.last().0, s.last().1) =~= amap(
            s.drop_last(),
        ).insert(s.last().0, s.last().1).remove(s[i].0));
    }
}

proof fn lemma_map_values_insert<K, V, W>(m: Map<K, V>, f: spec_fn(V) -> W, k: K, v: V)
    ensures
        m.insert(k, v).map_values(f) == m.map_values(f).insert(k, f(v)),
{
    assert(m.insert(k, v).map_values(f) =~= m.map_values(f).insert(k, f(v)));
}

proof fn lemma_map_values_remove<K, V, W>(m: Map<K, V>, f: spec_fn(V) -> W, k: K)
    ensures
        m.remove(k).map_values(f) == m.map_values(f).remove(k),
{
    assert(m.remove(k).map_values(f) =~= m.map_values(f).remove(k));
}

// ---------------------------------------------------------------------------
// A single batch
// ---------------------------------------------------------------------------

/// One client batch: for each content key, the stack of pins the batch holds
/// for it, most recently stored on top.
pub struct BlobBatch {
    tags: Vec<(HashAndFormat, Vec<ContentPin>)>,
}

/// The number of pins a stack holds.
pub open spec fn stack_len(stack: Vec<ContentPin>) -> nat {
    stack@.len()
}

impl BlobBatch {
    /// How many pins the batch holds per key; a key is in the domain exactly
    /// while its stack is non-empty.
    pub closed spec fn view(&self) -> Map<HashAndFormat, nat> {
        amap(self.tags@).map_values(|stack: Vec<ContentPin>| stack_len(stack))
    }

    /// Well-formedness: keys are unique, no stack is empty, and every pin
    /// sits under the key it holds alive.
    pub closed spec fn inv(&self) -> bool {
        &&& distinct_keys(self.tags@)
        &&& forall|i: int|
            0 <= i < self.tags@.len() ==> (#[trigger] self.tags@[i]).1@.len() > 0
        &&& forall|i: int, j: int|
            0 <= i < self.tags@.len() && 0 <= j < self.tags@[i].1@.len() ==> (
            #[trigger] self.tags@[i].1@[j]).key == self.tags@[i].0
    }

    /// An empty batch.
    pub fn new() -> (r: BlobBatch)
        ensures
            r.inv(),
            r@ == Map::<HashAndFormat, nat>::empty(),
    {
        BlobBatch { tags: Vec::new() }
    }

    fn find_key(&self, k: HashAndFormat) -> (r: Option<usize>)
        ensures
            match r {
                Some(i) => i < self.tags@.len() && self.tags@[i as int].0 == k,
                None => forall|i: int|
                    0 <= i < self.tags@.len() ==> (#[trigger] self.tags@[i]).0 != k,
            },
    {
        let mut i: usize = 0;
        while i < self.tags.len()
            invariant
                i <= self.tags@.len(),
                forall|j: int| 0 <= j < i ==> (#[trigger] self.tags@[j]).0 != k,
            decreases self.tags@.len() - i,
        {
            if self.tags[i].0 == k {
                return Some(i);
            }
            i += 1;
        }
        None
    }

    /// Pushes `pin` onto the stack for its key, creating the key entry if
    /// absent. Takes ownership of the pin.
    pub fn store_pin(&mut self, pin: ContentPin)
        requires
            old(self).inv(),
        ensures
            final(self).inv(),
            final(self)@ == old(self)@.insert(pin.key, (count_in(old(self)@, pin.key) + 1) as nat),
    {
        let key = pin.hash_and_format();
        let ghost f = |stack: Vec<ContentPin>| stack_len(stack);
        match self.find_key(key) {
            Some(i) => {
                proof {
                    lemma_amap_index(self.tags@, i as int);
                    lemma_amap_contains(self.tags@, key);
                }
                let slot = &mut self.tags[i];
                slot.1.push(pin);
                proof {
                    assert(self.tags@ == old(self).tags@.update(
                        i as int,
                        (key, self.tags@[i as int].1),
                    ));
                    lemma_amap_update(old(self).tags@, i as int, self.tags@[i as int].1);
                    lemma_map_values_insert(
                        amap(old(self).tags@),
                        f,
                        key,
                        self.tags@[i as int].1,
                    );
                }
            },
            None => {
                proof {
                    lemma_amap_contains(self.tags@, key);
                }
                let mut stack: Vec<ContentPin> = Vec::new();
                stack.push(pin);
                self.tags.push((key, stack));
                proof {
                    lemma_amap_push(old(self).tags@, key, stack);
                    lemma_map_values_insert(amap(old(self).tags@), f, key, stack);
                }
            },
        }
    }

    /// Pops the most recently stored pin for `k` and drops it; prunes the
    /// key entry when its stack becomes empty. Returns whether a pin was
    /// there to remove; on `false` the batch is unchanged.
    pub fn remove_one_pin(&mut self, k: HashAndFormat) -> (r: bool)
        requires
            old(self).inv(),
        ensures
            final(self).inv(),
            r == old(self)@.contains_key(k),
            r ==> final(self)@ == (if old(self)@[k] > 1 {
                old(self)@.insert(k, (old(self)@[k] - 1) as nat)
            } else {
                old(self)@.remove(k)
            }),
            !r ==> final(self)@ == old(self)@ && *final(self) == *old(self),
    {
        let ghost f = |stack: Vec<ContentPin>| stack_len(stack);
        proof {
            lemma_amap_contains(self.tags@, k);
        }
        match self.find_key(k) {
            Some(i) => {
                proof {
                    lemma_amap_index(self.tags@, i as int);
                }
                if self.tags[i].1.len() == 1 {
                    let _entry = self.tags.remove(i);
                    proof {
                        lemma_amap_remove(old(self).tags@, i as int);
                        lemma_map_values_remove(amap(old(self).tags@), f, k);
                    }
                } else {
                    let slot = &mut self.tags[i];
                    let _pin = slot.1.pop();
                    proof {
                        assert(self.tags@ == old(self).tags@.update(
                            i as int,
                            (k, self.tags@[i as int].1),
                        ));
                        lemma_amap_update(old(self).tags@, i as int, self.tags@[i as int].1);
                        lemma_map_values_insert(
                            amap(old(self).tags@),
                            f,
                            k,
                            self.tags@[i as int].1,
                        );
                    }
                }
                true
            },
            None => false,
        }
    }
}

/// The pin count a batch map holds for `k`; zero when the key is absent.
pub open spec fn count_in(m: Map<HashAndFormat, nat>, k: HashAndFormat) -> nat {
    if m.contains_key(k) {
        m[k]
    } else {
        0
    }
}

// ---------------------------------------------------------------------------
// The ledger
// ---------------------------------------------------------------------------

/// The ledger view: per batch identifier, per content key, how many pins the
/// batch holds.
pub type LedgerView = Map<BatchId, Map<HashAndFormat, nat>>;

/// The tag map of batch `b` in ledger view `v`; empty when the batch does
/// not exist.
pub open spec fn batch_tags(v: LedgerView, b: BatchId) -> Map<HashAndFormat, nat> {
    if v.contains_key(b) {
        v[b]
    } else {
        Map::empty()
    }
}

/// The pin count ledger view `v` holds for key `k` in batch `b`.
pub open spec fn count_of(v: LedgerView, b: BatchId, k: HashAndFormat) -> nat {
    count_in(batch_tags(v, b), k)
}

/// The ledger view after storing one pin for `k` into batch `b`: the batch
/// and key entries come into being if absent, and the count for `k` rises by
/// one.
pub open spec fn stored(v: LedgerView, b: BatchId, k: HashAndFormat) -> LedgerView {
    v.insert(b, batch_tags(v, b).insert(k, (count_of(v, b, k) + 1) as nat))
}

/// Whether a `remove_one` for key `k` in batch `b` succeeds on view `v`.
pub open spec fn remove_one_ok(v: LedgerView, b: BatchId, k: HashAndFormat) -> bool {
    v.contains_key(b) && v[b].contains_key(k)
}

/// The ledger view after a successful `remove_one`: the count for `k` drops
/// by one, the key entry is pruned when it reaches zero, and the batch entry
/// stays (possibly empty).
pub open spec fn removed_one(v: LedgerView, b: BatchId, k: HashAndFormat) -> LedgerView {
    if v[b][k] > 1 {
        v.insert(b, v[b].insert(k, (v[b][k] - 1) as nat))
    } else {
        v.insert(b, v[b].remove(k))
    }
}

/// The registry of all currently active batches, and the allocator for fresh
/// batch identifiers.
pub struct BlobBatches {
    batches: Vec<(BatchId, BlobBatch)>,
    max: u64,
}

impl BlobBatches {
    /// The ledger's contents.
    pub closed spec fn view(&self) -> LedgerView {
        amap(self.batches@).map_values(|b: BlobBatch| b@)
    }

    /// The identifier the next `create` returns; strictly greater than every
    /// identifier issued before.
    pub closed spec fn next_id(&self) -> u64 {
        self.max
    }

    /// Well-formedness: batch identifiers are unique and every batch is
    /// well-formed.
    pub closed spec fn inv(&self) -> bool {
        &&& distinct_keys(self.batches@)
        &&& forall|i: int| 0 <= i < self.batches@.len() ==> (#[trigger] self.batches@[i]).1.inv()
    }

    /// An empty ledger.
    pub fn new() -> (r: BlobBatches)
        ensures
            r.inv(),
            r@ == Map::<BatchId, Map<HashAndFormat, nat>>::empty(),
            r.next_id() == 0,
    {
        BlobBatches { batches: Vec::new(), max: 0 }
    }

    fn find_batch(&self, b: BatchId) -> (r: Option<usize>)
        ensures
            match r {
                Some(i) => i < self.batches@.len() && self.batches@[i as int].0 == b,
                None => forall|i: int|
                    0 <= i < self.batches@.len() ==> (#[trigger] self.batches@[i]).0 != b,
            },
    {
        let mut i: usize = 0;
        while i < self.batches.len()
            invariant
                i <= self.batches@.len(),
                forall|j: int| 0 <= j < i ==> (#[trigger] self.batches@[j]).0 != b,
            decreases self.batches@.len() - i,
        {
            if self.batches[i].0 == b {
                return Some(i);
            }
            i += 1;
        }
        None
    }

    /// Allocates and returns a fresh, previously unused batch identifier.
    /// The batch entry itself only comes into being on the first `store`.
    pub fn create(&mut self) -> (r: BatchId)
        requires
            old(self).inv(),
            old(self).next_id() < u64::MAX,
        ensures
            final(self).inv(),
            r == BatchId(old(self).next_id()),
            final(self).next_id() == old(self).next_id() + 1,
            final(self)@ == old(self)@,
    {
        let id = self.max;
        self.max = self.max + 1;
        BatchId(id)
    }

    /// Pushes `tt` onto the stack for its key within batch `batch`, creating
    /// the batch and key entries if absent. Takes ownership of the pin and
    /// never fails.
    pub fn store(&mut self, batch: BatchId, tt: ContentPin)
        requires
            old(self).inv(),
        ensures
            final(self).inv(),
            final(self).next_id() == old(self).next_id(),
            final(self)@ == stored(old(self)@, batch, tt.key),
    {
        let ghost f = |b: BlobBatch| b@;
        proof {
            lemma_amap_contains(self.batches@, batch);
        }
        match self.find_batch(batch) {
            Some(i) => {
                proof {
                    lemma_amap_index(self.batches@, i as int);
                }
                let slot = &mut self.batches[i];
                slot.1.store_pin(tt);
                proof {
                    assert(self.batches@ == old(self).batches@.update(
                        i as int,
                        (batch, self.batches@[i as int].1),
                    ));
                    lemma_amap_update(old(self).batches@, i as int, self.batches@[i as int].1);
                    lemma_map_values_insert(
                        amap(old(self).batches@),
                        f,
                        batch,
                        self.batches@[i as int].1,
                    );
                }
            },
            None => {
                let mut b = BlobBatch::new();
                b.store_pin(tt);
                self.batches.push((batch, b));
                proof {
                    lemma_amap_push(old(self).batches@, batch, b);
                    lemma_map_values_insert(amap(old(self).batches@), f, batch, b);
                    assert(batch_tags(old(self)@, batch) =~= Map::<HashAndFormat, nat>::empty());
                    assert(b@ =~= batch_tags(old(self)@, batch).insert(
                        tt.key,
                        (count_of(old(self)@, batch, tt.key) + 1) as nat,
                    ));
                }
            },
        }
    }

    /// Pops the most recently stored pin for `content` in batch `batch` and
    /// drops it. Fails with [`DownloadError::TagNotFound`] when the batch is
    /// unknown or holds no pin for the key — an expected, recoverable
    /// condition that leaves the ledger untouched. On success the key entry
    /// is pruned when its stack empties; the batch entry itself stays until
    /// an explicit `remove`.
    pub fn remove_one(&mut self, batch: BatchId, content: HashAndFormat) -> (r: Result<
        (),
        DownloadError,
    >)
        requires
            old(self).inv(),
        ensures
            final(self).inv(),
            final(self).next_id() == old(self).next_id(),
            match r {
                Ok(()) => remove_one_ok(old(self)@, batch, content) && final(self)@ == removed_one(
                    old(self)@,
                    batch,
                    content,
                ),
                Err(e) => e == DownloadError::TagNotFound && !remove_one_ok(
                    old(self)@,
                    batch,
                    content,
                ) && final(self)@ == old(self)@,
            },
    {
        let ghost f = |b: BlobBatch| b@;
        proof {
            lemma_amap_contains(self.batches@, batch);
        }
        match self.find_batch(batch) {
            Some(i) => {
                proof {
                    lemma_amap_index(self.batches@, i as int);
                }
                let slot = &mut self.batches[i];
                let found = slot.1.remove_one_pin(content);
                proof {
                    assert(self.batches@ == old(self).batches@.update(
                        i as int,
                        (batch, self.batches@[i as int].1),
                    ));
                    lemma_amap_update(old(self).batches@, i as int, self.batches@[i as int].1);
                    lemma_map_values_insert(
                        amap(old(self).batches@),
                        f,
                        batch,
                        self.batches@[i as int].1,
                    );
                }
                if found {
                    Ok(())
                } else {
                    proof {
                        assert(final(self)@ =~= old(self)@);
                    }
                    Err(DownloadError::TagNotFound)
                }
            },
            None => Err(DownloadError::TagNotFound),
        }
    }

    /// Deletes batch `batch` entirely, dropping every pin it held.
    /// Idempotent: removing an unknown identifier is a no-op.
    pub fn remove(&mut self, batch: BatchId)
        requires
            old(self).inv(),
        ensures
            final(self).inv(),
            final(self).next_id() == old(self).next_id(),
            final(self)@ == old(self)@.remove(batch),
    {
        let ghost f = |b: BlobBatch| b@;
        proof {
            lemma_amap_contains(self.batches@, batch);
        }
        match self.find_batch(batch) {
            Some(i) => {
                let _entry = self.batches.remove(i);
                proof {
                    lemma_amap_remove(old(self).batches@, i as int);
                    lemma_map_values_remove(amap(old(self).batches@), f, batch);
                }
            },
            None => {
                proof {
                    assert(final(self)@ =~= old(self)@.remove(batch));
                }
            },
        }
    }

    /// Whether the ledger currently has an entry for `batch`.
    pub fn contains_batch(&self, batch: BatchId) -> (r: bool)
        ensures
            r == self@.contains_key(batch),
    {
        proof {
            lemma_amap_contains(self.batches@, batch);
        }
        self.find_batch(batch).is_some()
    }
}

// ---------------------------------------------------------------------------
// Laws of the ledger
// ---------------------------------------------------------------------------

/// The ledger view after a sequence of single-key operations on batch `b`
/// and key `k`: `true` stands for a `store`, `false` for a `remove_one` (a
/// failing `remove_one` leaves the view untouched, as its contract says).
pub open spec fn apply_key_ops(v: LedgerView, b: BatchId, k: HashAndFormat, ops: Seq<bool>)
    -> LedgerView
    decreases ops.len(),
{
    if ops.len() == 0 {
        v
    } else {
        let w = apply_key_ops(v, b, k, ops.drop_last());
        if ops.last() {
            stored(w, b, k)
        } else {
            if remove_one_ok(w, b, k) {
                removed_one(w, b, k)
            } else {
                w
            }
        }
    }
}

/// How many of the operations are stores.
pub open spec fn num_stores(ops: Seq<bool>) -> nat
    decreases ops.len(),
{
    if ops.len() == 0 {
        0
    } else {
        num_stores(ops.drop_last()) + if ops.last() {
            1nat
        } else {
            0nat
        }
    }
}

/// How many of the `remove_one` operations succeed along the run.
pub open spec fn num_removes_ok(v: LedgerView, b: BatchId, k: HashAndFormat, ops: Seq<bool>)
    -> nat
    decreases ops.len(),
{
    if ops.len() == 0 {
        0
    } else {
        num_removes_ok(v, b, k, ops.drop_last()) + if !ops.last() && remove_one_ok(
            apply_key_ops(v, b, k, ops.drop_last()),
            b,
            k,
        ) {
            1nat
        } else {
            0nat
        }
    }
}

/// For any sequence of `store` and `remove_one` operations on a single key
/// of a batch whose identifier was fresh at the start, the batch holds
/// exactly (number of stores − number of successful removes) pins for that
/// key, and the key is absent from the batch's tag map exactly while that
/// count is zero.
pub proof fn lemma_single_key_counts(v: LedgerView, b: BatchId, k: HashAndFormat, ops: Seq<bool>)
    requires
        !v.contains_key(b),
    ensures
        count_of(apply_key_ops(v, b, k, ops), b, k) + num_removes_ok(v, b, k, ops) == num_stores(
            ops,
        ),
        apply_key_ops(v, b, k, ops).contains_key(b) ==> (apply_key_ops(
            v,
            b,
            k,
            ops,
        )[b].contains_key(k) <==> count_of(apply_key_ops(v, b, k, ops), b, k) > 0),
        apply_key_ops(v, b, k, ops).contains_key(b) <==> num_stores(ops) > 0,
    decreases ops.len(),
{
    if ops.len() > 0 {
        lemma_single_key_counts(v, b, k, ops.drop_last());
    }
}

/// A removed batch behaves as if it never existed: `remove_one` on it must
/// fail by its contract (the batch is no longer in the ledger), and a second
/// `remove` is a no-op on the view.
pub proof fn lemma_remove_is_final(v: LedgerView, b: BatchId)
    ensures
        !v.remove(b).contains_key(b),
        v.remove(b).remove(b) == v.remove(b),
{
    assert(v.remove(b).remove(b) =~= v.remove(b));
}

/// One step of a ledger operation as seen by the identifier allocator: only
/// `create` moves it, by one.
pub enum LedgerOp {
    Create,
    Store(BatchId, HashAndFormat),
    RemoveOne(BatchId, HashAndFormat),
    Remove(BatchId),
}

/// The allocator value after one operation, per the operations' contracts.
pub open spec fn op_next(next: int, op: LedgerOp) -> int {
    match op {
        LedgerOp::Create => next + 1,
        _ => next,
    }
}

/// The allocator value after a run of operations.
pub open spec fn run_next(next: int, ops: Seq<LedgerOp>) -> int
    decreases ops.len(),
{
    if ops.len() == 0 {
        next
    } else {
        op_next(run_next(next, ops.drop_last()), ops.last())
    }
}

/// The identifiers the `create` operations of a run return, in order: each
/// `create` returns the allocator value it finds, per its contract.
pub open spec fn issued_ids(next: int, ops: Seq<LedgerOp>) -> Seq<int>
    decreases ops.len(),
{
    if ops.len() == 0 {
        Seq::empty()
    } else {
        let prefix = issued_ids(next, ops.drop_last());
        if ops.last() is Create {
            prefix.push(run_next(next, ops.drop_last()))
        } else {
            prefix
        }
    }
}

/// Identifiers issued by `create` are strictly increasing over any run of
/// ledger operations — in particular they are pairwise distinct, and an
/// identifier whose batch was removed is never issued again, since no
/// operation ever lowers the allocator.
pub proof fn lemma_create_ids_increasing(next: int, ops: Seq<LedgerOp>)
    ensures
        run_next(next, ops) >= next,
        forall|i: int|
            0 <= i < issued_ids(next, ops).len() ==> next <= #[trigger] issued_ids(next, ops)[i]
                < run_next(next, ops),
        forall|i: int, j: int|
            0 <= i < j < issued_ids(next, ops).len() ==> issued_ids(next, ops)[i] < issued_ids(
                next,
                ops,
            )[j],
    decreases ops.len(),
{
    if ops.len() > 0 {
        lemma_create_ids_increasing(next, ops.drop_last());
        let prefix = issued_ids(next, ops.drop_last());
        let whole = issued_ids(next, ops);
        if ops.last() is Create {
            assert(forall|i: int| 0 <= i < prefix.len() ==> whole[i] == prefix[i]);
            assert(whole[whole.len() - 1] == run_next(next, ops.drop_last()));
        }
    }
}

} // verus!
