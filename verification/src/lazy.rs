//! Lazy clipboard payload store.
//!
//! Large clipboard items travel as a hash on the wire and are fetched only
//! when the receiver pastes. The producer keeps the bytes here, keyed by
//! their BLAKE3 hash. The store is bounded: a payload larger than the
//! store's cap is refused at insert time, and the oldest entries are
//! evicted first when a new payload would take the total past the cap, so
//! the total never exceeds the cap.
use vstd::prelude::*;
use crate::digest::{blake3_hash, bytes32_equal, spec_blake3};
use crate::snapshot::{copy_bytes, ClipItem, ClipItemModel, ImageFormat, LazyPayload, LazyPayloadModel};

verus! {

/// Payloads at or below this size are inlined into the snapshot.
pub const INLINE_THRESHOLD: usize = 256 * 1024;

/// Default total cap on the lazy store: 256 MiB.
pub const DEFAULT_TOTAL_CAP: usize = 256 * 1024 * 1024;

/// One stored payload.
struct LazyEntry {
    hash: [u8; 32],
    bytes: Vec<u8>,
}

/// A stored payload in the model: `(hash, bytes)`.
pub type EntryModel = (Seq<u8>, Seq<u8>);

/// Mathematical model of a [`LazyStore`]: the entries in insertion order
/// (oldest first) and the cap on their total size.
pub struct LazyStoreModel {
    pub entries: Seq<EntryModel>,
    pub cap: nat,
}

/// Producer-side cache of large payloads, keyed by BLAKE3 hash.
pub struct LazyStore {
    entries: Vec<LazyEntry>,
    total_bytes: usize,
    cap: usize,
}

/// Total number of payload bytes held by `e`.
pub open spec fn spec_total(e: Seq<EntryModel>) -> nat
    decreases e.len(),
{
    if e.len() == 0 {
        0
    } else {
        e[0].1.len() + spec_total(e.drop_first())
    }
}

/// The bytes stored under `h`, if any (the first match in insertion order).
pub open spec fn spec_lookup(e: Seq<EntryModel>, h: Seq<u8>) -> Option<Seq<u8>>
    decreases e.len(),
{
    if e.len() == 0 {
        None
    } else if e[0].0 == h {
        Some(e[0].1)
    } else {
        spec_lookup(e.drop_first(), h)
    }
}

/// `e` with every entry under `h` removed.
pub open spec fn spec_without(e: Seq<EntryModel>, h: Seq<u8>) -> Seq<EntryModel>
    decreases e.len(),
{
    if e.len() == 0 {
        e
    } else if e[0].0 == h {
        spec_without(e.drop_first(), h)
    } else {
        seq![e[0]] + spec_without(e.drop_first(), h)
    }
}

/// Drop the oldest entries until `incoming` more bytes fit under `cap`, or
/// nothing is left.
pub open spec fn spec_evict(e: Seq<EntryModel>, incoming: nat, cap: nat) -> Seq<EntryModel>
    decreases e.len(),
{
    if e.len() > 0 && spec_total(e) + incoming > cap {
        spec_evict(e.drop_first(), incoming, cap)
    } else {
        e
    }
}

/// Whether an insert of `bytes` under `h` stores them: the bytes fit
/// under the cap on their own and nothing is stored under `h` yet.
pub open spec fn spec_insert_stores(m: LazyStoreModel, h: Seq<u8>, bytes: Seq<u8>) -> bool {
    bytes.len() <= m.cap && spec_lookup(m.entries, h) is None
}

/// The store after inserting `bytes` under hash `h`: unchanged when the
/// bytes are larger than the cap or `h` is already present; otherwise the
/// oldest entries are evicted to make room and the new entry is appended.
pub open spec fn spec_insert(m: LazyStoreModel, h: Seq<u8>, bytes: Seq<u8>) -> LazyStoreModel {
    if !spec_insert_stores(m, h, bytes) {
        m
    } else {
        LazyStoreModel { entries: spec_evict(m.entries, bytes.len(), m.cap).push((h, bytes)), cap: m.cap }
    }
}

/// No hash occurs twice.
pub open spec fn spec_distinct(e: Seq<EntryModel>) -> bool {
    forall|i: int, j: int| 0 <= i < j < e.len() ==> e[i].0 != e[j].0
}

/// Well-formed store models: distinct hashes, each the BLAKE3 hash of its
/// bytes, and the total within the cap.
pub open spec fn spec_store_wf(m: LazyStoreModel) -> bool {
    &&& spec_distinct(m.entries)
    &&& forall|i: int| 0 <= i < m.entries.len() ==> #[trigger] m.entries[i].0 == spec_blake3(m.entries[i].1)
    &&& spec_total(m.entries) <= m.cap
}

spec fn entries_model(v: Seq<LazyEntry>) -> Seq<EntryModel> {
    v.map_values(|x: LazyEntry| (x.hash@, x.bytes@))
}

impl View for LazyStore {
    type V = LazyStoreModel;

    closed spec fn view(&self) -> LazyStoreModel {
        LazyStoreModel { entries: entries_model(self.entries@), cap: self.cap as nat }
    }
}

proof fn lemma_total_push(e: Seq<EntryModel>, x: EntryModel)
    ensures
        spec_total(e.push(x)) == spec_total(e) + x.1.len(),
    decreases e.len(),
{
    if e.len() == 0 {
        assert(e.push(x).drop_first() =~= e);
    } else {
        lemma_total_push(e.drop_first(), x);
        assert(e.push(x).drop_first() =~= e.drop_first().push(x));
    }
}

proof fn lemma_total_remove(e: Seq<EntryModel>, i: int)
    requires
        0 <= i < e.len(),
    ensures
        spec_total(e.remove(i)) + e[i].1.len() == spec_total(e),
    decreases e.len(),
{
    if i == 0 {
        assert(e.remove(0) =~= e.drop_first());
    } else {
        lemma_total_remove(e.drop_first(), i - 1);
        assert(e.remove(i).drop_first() =~= e.drop_first().remove(i - 1));
    }
}

proof fn lemma_lookup_found(e: Seq<EntryModel>, h: Seq<u8>, i: int)
    requires
        0 <= i < e.len(),
        e[i].0 == h,
        forall|j: int| 0 <= j < i ==> e[j].0 != h,
    ensures
        spec_lookup(e, h) == Some(e[i].1),
    decreases i,
{
    if i > 0 {
        lemma_lookup_found(e.drop_first(), h, i - 1);
    }
}

proof fn lemma_lookup_absent(e: Seq<EntryModel>, h: Seq<u8>)
    requires
        forall|j: int| 0 <= j < e.len() ==> e[j].0 != h,
    ensures
        spec_lookup(e, h) is None,
        spec_without(e, h) == e,
    decreases e.len(),
{
    if e.len() > 0 {
        lemma_lookup_absent(e.drop_first(), h);
        assert(seq![e[0]] + e.drop_first() =~= e);
    }
}

proof fn lemma_lookup_witness(e: Seq<EntryModel>, h: Seq<u8>)
    requires
        spec_lookup(e, h) is Some,
    ensures
        exists|i: int| 0 <= i < e.len() && e[i].0 == h && e[i].1 == spec_lookup(e, h)->0,
    decreases e.len(),
{
    if e[0].0 != h {
        lemma_lookup_witness(e.drop_first(), h);
        let i = choose|i: int| 0 <= i < e.drop_first().len() && e.drop_first()[i].0 == h
            && e.drop_first()[i].1 == spec_lookup(e.drop_first(), h)->0;
        assert(e[i + 1].0 == h);
    } else {
        assert(e[0].0 == h);
    }
}

proof fn lemma_without_remove(e: Seq<EntryModel>, h: Seq<u8>, i: int)
    requires
        spec_distinct(e),
        0 <= i < e.len(),
        e[i].0 == h,
    ensures
        spec_without(e, h) == e.remove(i),
    decreases e.len(),
{
    if i == 0 {
        assert(forall|j: int| 0 <= j < e.drop_first().len() ==> e.drop_first()[j] == e[j + 1]);
        lemma_lookup_absent(e.drop_first(), h);
        assert(e.remove(0) =~= e.drop_first());
    } else {
        assert(e[0].0 != h);
        lemma_without_remove(e.drop_first(), h, i - 1);
        assert(e.remove(i) =~= seq![e[0]] + e.drop_first().remove(i - 1));
    }
}

proof fn lemma_evict_suffix(e: Seq<EntryModel>, incoming: nat, cap: nat)
    ensures
        exists|k: int| 0 <= k <= e.len() && spec_evict(e, incoming, cap) == e.skip(k),
        spec_total(spec_evict(e, incoming, cap)) + incoming <= cap || spec_evict(e, incoming, cap).len() == 0,
    decreases e.len(),
{
    if e.len() > 0 && spec_total(e) + incoming > cap {
        lemma_evict_suffix(e.drop_first(), incoming, cap);
        let k = choose|k: int| 0 <= k <= e.drop_first().len()
            && spec_evict(e.drop_first(), incoming, cap) == e.drop_first().skip(k);
        assert(e.drop_first().skip(k) =~= e.skip(k + 1));
    } else {
        assert(e.skip(0) =~= e);
    }
}

proof fn lemma_distinct_skip(e: Seq<EntryModel>, k: int)
    requires
        spec_distinct(e),
        0 <= k <= e.len(),
    ensures
        spec_distinct(e.skip(k)),
{
    assert forall|i: int, j: int| 0 <= i < j < e.skip(k).len() implies e.skip(k)[i].0 != e.skip(k)[j].0 by {
        assert(e.skip(k)[i] == e[i + k]);
        assert(e.skip(k)[j] == e[j + k]);
    }
}

proof fn lemma_lookup_none_all(e: Seq<EntryModel>, h: Seq<u8>)
    requires
        spec_lookup(e, h) is None,
    ensures
        forall|j: int| 0 <= j < e.len() ==> e[j].0 != h,
    decreases e.len(),
{
    if e.len() > 0 {
        lemma_lookup_none_all(e.drop_first(), h);
        assert forall|j: int| 0 <= j < e.len() implies e[j].0 != h by {
            if j > 0 {
                assert(e[j] == e.drop_first()[j - 1]);
            }
        }
    }
}

proof fn lemma_without_lookup(e: Seq<EntryModel>, h: Seq<u8>)
    ensures
        spec_lookup(spec_without(e, h), h) is None,
    decreases e.len(),
{
    if e.len() > 0 {
        lemma_without_lookup(e.drop_first(), h);
        if e[0].0 != h {
            let w = spec_without(e.drop_first(), h);
            assert((seq![e[0]] + w).drop_first() =~= w);
        }
    }
}

/// Law: after inserting `bytes` that fit under the cap, looking up their
/// hash yields bytes with the same hash, and exactly `bytes` when that hash
/// was not stored yet.
pub proof fn law_insert_then_lookup(m: LazyStoreModel, bytes: Seq<u8>)
    requires
        spec_store_wf(m),
        bytes.len() <= m.cap,
    ensures
        ({
            let h = spec_blake3(bytes);
            let r = spec_lookup(spec_insert(m, h, bytes).entries, h);
            &&& r is Some
            &&& spec_blake3(r->0) == h
            &&& spec_lookup(m.entries, h) is None ==> r == Some(bytes)
        }),
{
    let h = spec_blake3(bytes);
    if spec_lookup(m.entries, h) is Some {
        lemma_lookup_witness(m.entries, h);
    } else {
        lemma_lookup_none_all(m.entries, h);
        lemma_evict_suffix(m.entries, bytes.len(), m.cap);
        let ev = spec_evict(m.entries, bytes.len(), m.cap);
        let k = choose|k: int| 0 <= k <= m.entries.len() && ev == m.entries.skip(k);
        let e2 = ev.push((h, bytes));
        assert forall|j: int| 0 <= j < ev.len() implies e2[j].0 != h by {
            assert(e2[j] == m.entries[j + k]);
        }
        lemma_lookup_found(e2, h, ev.len() as int);
    }
}

/// Law: inserting the same bytes twice is the same as inserting them once.
pub proof fn law_insert_idempotent(m: LazyStoreModel, bytes: Seq<u8>)
    requires
        spec_store_wf(m),
    ensures
        ({
            let h = spec_blake3(bytes);
            spec_insert(spec_insert(m, h, bytes), h, bytes) == spec_insert(m, h, bytes)
        }),
{
    if bytes.len() <= m.cap {
        law_insert_then_lookup(m, bytes);
    }
}

/// Law: the store stays within its cap. Inserting into a well-formed store
/// gives a well-formed store, whose total is at most the cap, and a payload
/// larger than the cap is refused: the store is left as it was and nothing
/// is found under its hash unless it was there before.
pub proof fn law_insert_within_cap(m: LazyStoreModel, bytes: Seq<u8>)
    requires
        spec_store_wf(m),
    ensures
        ({
            let h = spec_blake3(bytes);
            &&& spec_store_wf(spec_insert(m, h, bytes))
            &&& spec_total(spec_insert(m, h, bytes).entries) <= m.cap
            &&& bytes.len() > m.cap ==> spec_insert(m, h, bytes) == m
        }),
{
    lemma_insert_wf(m, spec_blake3(bytes), bytes);
}

/// Law: removing an entry keeps the store well formed, hence within its
/// cap.
pub proof fn law_remove_within_cap(m: LazyStoreModel, h: Seq<u8>)
    requires
        spec_store_wf(m),
    ensures
        spec_store_wf(LazyStoreModel { entries: spec_without(m.entries, h), cap: m.cap }),
        spec_total(spec_without(m.entries, h)) <= m.cap,
{
    lemma_without_wf(m, h);
}

proof fn lemma_insert_wf(m: LazyStoreModel, h: Seq<u8>, bytes: Seq<u8>)
    requires
        spec_store_wf(m),
        h == spec_blake3(bytes),
    ensures
        spec_store_wf(spec_insert(m, h, bytes)),
{
    if spec_insert_stores(m, h, bytes) {
        lemma_lookup_none_all(m.entries, h);
        lemma_evict_suffix(m.entries, bytes.len(), m.cap);
        let ev = spec_evict(m.entries, bytes.len(), m.cap);
        let k = choose|k: int| 0 <= k <= m.entries.len() && ev == m.entries.skip(k);
        lemma_distinct_skip(m.entries, k);
        let e2 = ev.push((h, bytes));
        lemma_total_push(ev, (h, bytes));
        assert forall|a: int, b: int| 0 <= a < b < e2.len() implies e2[a].0 != e2[b].0 by {
            assert(e2[a] == m.entries[a + k]);
            if b < ev.len() {
                assert(e2[b] == m.entries[b + k]);
            }
        }
        assert forall|a: int| 0 <= a < e2.len() implies #[trigger] e2[a].0 == spec_blake3(e2[a].1) by {
            if a < ev.len() {
                assert(e2[a] == m.entries[a + k]);
            }
        }
    }
}

proof fn lemma_without_total(e: Seq<EntryModel>, h: Seq<u8>)
    ensures
        spec_total(spec_without(e, h)) <= spec_total(e),
        forall|j: int| 0 <= j < spec_without(e, h).len() ==> exists|i: int| 0 <= i < e.len() && #[trigger] spec_without(e, h)[j] == e[i],
        spec_distinct(e) ==> spec_distinct(spec_without(e, h)),
    decreases e.len(),
{
    if e.len() > 0 {
        let t = e.drop_first();
        lemma_without_total(t, h);
        let w = spec_without(t, h);
        if e[0].0 != h {
            let w2 = seq![e[0]] + w;
            assert(w2.drop_first() =~= w);
            assert forall|j: int| 0 <= j < w2.len() implies exists|i: int| 0 <= i < e.len() && #[trigger] w2[j] == e[i] by {
                if j == 0 {
                    assert(w2[0] == e[0]);
                } else {
                    assert(w2[j] == w[j - 1]);
                    let i = choose|i: int| 0 <= i < t.len() && w[j - 1] == t[i];
                    assert(t[i] == e[i + 1]);
                }
            }
            if spec_distinct(e) {
                assert(spec_distinct(t)) by {
                    assert forall|a: int, b: int| 0 <= a < b < t.len() implies t[a].0 != t[b].0 by {
                        assert(t[a] == e[a + 1]);
                        assert(t[b] == e[b + 1]);
                    }
                }
                assert forall|a: int, b: int| 0 <= a < b < w2.len() implies w2[a].0 != w2[b].0 by {
                    assert(w2[b] == w[b - 1]);
                    let i = choose|i: int| 0 <= i < t.len() && w[b - 1] == t[i];
                    assert(t[i] == e[i + 1]);
                    if a > 0 {
                        assert(w2[a] == w[a - 1]);
                    }
                }
            }
        } else {
            assert forall|j: int| 0 <= j < w.len() implies exists|i: int| 0 <= i < e.len() && #[trigger] w[j] == e[i] by {
                let i = choose|i: int| 0 <= i < t.len() && w[j] == t[i];
                assert(t[i] == e[i + 1]);
            }
            if spec_distinct(e) {
                assert forall|a: int, b: int| 0 <= a < b < t.len() implies t[a].0 != t[b].0 by {
                    assert(t[a] == e[a + 1]);
                    assert(t[b] == e[b + 1]);
                }
            }
        }
    }
}

proof fn lemma_without_wf(m: LazyStoreModel, h: Seq<u8>)
    requires
        spec_store_wf(m),
    ensures
        spec_store_wf(LazyStoreModel { entries: spec_without(m.entries, h), cap: m.cap }),
        spec_total(spec_without(m.entries, h)) <= m.cap,
{
    lemma_without_total(m.entries, h);
    let w = spec_without(m.entries, h);
    assert forall|a: int| 0 <= a < w.len() implies #[trigger] w[a].0 == spec_blake3(w[a].1) by {
        let i = choose|i: int| 0 <= i < m.entries.len() && w[a] == m.entries[i];
    }
}

/// Law: eviction is first-in first-out. A fresh insert of bytes within
/// the cap keeps a suffix of the old entries (oldest dropped first)
/// followed by the new entry, and the survivors plus the new bytes fit
/// under the cap.
pub proof fn law_insert_evicts_oldest_first(m: LazyStoreModel, bytes: Seq<u8>)
    requires
        spec_lookup(m.entries, spec_blake3(bytes)) is None,
        bytes.len() <= m.cap,
    ensures
        exists|k: int| 0 <= k <= m.entries.len()
            && #[trigger] spec_insert(m, spec_blake3(bytes), bytes).entries == m.entries.skip(k).push((spec_blake3(bytes), bytes))
            && spec_total(m.entries.skip(k)) + bytes.len() <= m.cap,
{
    lemma_evict_suffix(m.entries, bytes.len(), m.cap);
    let ev = spec_evict(m.entries, bytes.len(), m.cap);
    let k = choose|k: int| 0 <= k <= m.entries.len() && ev == m.entries.skip(k);
    assert(spec_insert(m, spec_blake3(bytes), bytes).entries == m.entries.skip(k).push((spec_blake3(bytes), bytes)));
}

/// Law: after removing a hash, nothing is found under it.
pub proof fn law_remove_then_lookup(m: LazyStoreModel, h: Seq<u8>)
    ensures
        spec_lookup(spec_without(m.entries, h), h) is None,
{
    lemma_without_lookup(m.entries, h);
}

impl LazyStore {
    /// Internal consistency: a well-formed model and an exact running
    /// total of the stored bytes.
    pub closed spec fn well_formed(&self) -> bool {
        &&& spec_store_wf(self@)
        &&& self.total_bytes as nat == spec_total(self@.entries)
    }

    /// Empty store with the default cap.
    pub fn new() -> (s: LazyStore)
        ensures
            s@.entries == Seq::<EntryModel>::empty(),
            s@.cap == DEFAULT_TOTAL_CAP as nat,
            s.well_formed(),
    {
        Self::with_cap(DEFAULT_TOTAL_CAP)
    }

    /// Empty store with an explicit cap.
    pub fn with_cap(cap: usize) -> (s: LazyStore)
        ensures
            s@.entries == Seq::<EntryModel>::empty(),
            s@.cap == cap as nat,
            spec_store_wf(s@),
            s.well_formed(),
    {
        let s = LazyStore { entries: Vec::new(), total_bytes: 0, cap };
        assert(s@.entries =~= Seq::<EntryModel>::empty());
        s
    }

    /// Number of stored entries.
    pub fn len(&self) -> (n: usize)
        ensures
            n == self@.entries.len(),
    {
        self.entries.len()
    }

    /// True if nothing is stored.
    pub fn is_empty(&self) -> (r: bool)
        ensures
            r == (self@.entries.len() == 0),
    {
        self.entries.len() == 0
    }

    /// Total cap on the store.
    pub fn cap(&self) -> (c: usize)
        ensures
            c == self@.cap,
    {
        self.cap
    }

    /// Total bytes currently held; never more than the cap.
    pub fn total_bytes(&self) -> (t: usize)
        requires
            self.well_formed(),
        ensures
            t == spec_total(self@.entries),
            t <= self@.cap,
    {
        self.total_bytes
    }

    fn find(&self, hash: &[u8; 32]) -> (r: Option<usize>)
        ensures
            match r {
                Some(i) => i < self@.entries.len() && self@.entries[i as int].0 == hash@
                    && spec_lookup(self@.entries, hash@) == Some(self@.entries[i as int].1),
                None => spec_lookup(self@.entries, hash@) is None
                    && forall|j: int| 0 <= j < self@.entries.len() ==> self@.entries[j].0 != hash@,
            },
    {
        let mut i: usize = 0;
        while i < self.entries.len()
            invariant
                0 <= i <= self.entries@.len(),
                forall|j: int| 0 <= j < i ==> self@.entries[j].0 != hash@,
            decreases self.entries.len() - i,
        {
            if bytes32_equal(&self.entries[i].hash, hash) {
                proof { lemma_lookup_found(self@.entries, hash@, i as int); }
                return Some(i);
            }
            i = i + 1;
        }
        proof { lemma_lookup_absent(self@.entries, hash@); }
        None
    }

    /// Look up the bytes stored under `hash`.
    pub fn get(&self, hash: &[u8; 32]) -> (r: Option<Vec<u8>>)
        ensures
            match r {
                Some(b) => spec_lookup(self@.entries, hash@) == Some(b@),
                None => spec_lookup(self@.entries, hash@) is None,
            },
    {
        match self.find(hash) {
            Some(i) => Some(copy_bytes(&self.entries[i].bytes)),
            None => None,
        }
    }

    /// Insert `bytes` under their BLAKE3 hash and return the hash. Bytes
    /// larger than the cap are refused and the store is left as it is; an
    /// entry already present under that hash is kept as it is; otherwise
    /// the oldest entries are evicted until the new bytes fit under the cap.
    pub fn insert(&mut self, bytes: Vec<u8>) -> (h: [u8; 32])
        requires
            old(self).well_formed(),
        ensures
            h@ == spec_blake3(bytes@),
            final(self)@ == spec_insert(old(self)@, h@, bytes@),
            spec_store_wf(final(self)@),
            spec_total(final(self)@.entries) <= final(self)@.cap,
            final(self).well_formed(),
    {
        let hash = blake3_hash(bytes.as_slice());
        let n = bytes.len();
        if n > self.cap {
            return hash;
        }
        if let Some(_) = self.find(&hash) {
            return hash;
        }
        let ghost old_e = self@.entries;
        assert(old_e.skip(0) =~= old_e);
        while self.total_bytes > self.cap - n && self.entries.len() > 0
            invariant
                spec_evict(old_e, n as nat, self.cap as nat) == spec_evict(self@.entries, n as nat, self.cap as nat),
                self.total_bytes as nat == spec_total(self@.entries),
                n <= self.cap,
                exists|k: int| 0 <= k <= old_e.len() && self@.entries == old_e.skip(k),
                self@.cap == old(self)@.cap,
            decreases self.entries.len(),
        {
            let ghost before = self@.entries;
            let removed = self.entries.remove(0);
            proof {
                assert(self@.entries =~= before.drop_first());
                lemma_total_remove(before, 0);
                assert(before.remove(0) =~= before.drop_first());
                let k = choose|k: int| 0 <= k <= old_e.len() && before == old_e.skip(k);
                assert(old_e.skip(k).drop_first() =~= old_e.skip(k + 1));
            }
            self.total_bytes = self.total_bytes - removed.bytes.len();
        }
        let ghost cur = self@.entries;
        assert(spec_evict(cur, n as nat, self.cap as nat) == cur);
        proof {
            let k = choose|k: int| 0 <= k <= old_e.len() && self@.entries == old_e.skip(k);
            lemma_distinct_skip(old_e, k);
            lemma_evict_suffix(old_e, n as nat, self.cap as nat);
            lemma_total_push(self@.entries, (hash@, bytes@));
            assert forall|j: int| 0 <= j < self@.entries.len() implies self@.entries[j].0 != hash@ by {
                assert(self@.entries[j] == old_e[j + k]);
            }
            lemma_insert_wf(old(self)@, hash@, bytes@);
        }
        let ghost hb = (hash@, bytes@);
        self.total_bytes = self.total_bytes + n;
        self.entries.push(LazyEntry { hash, bytes });
        assert(self@.entries =~= cur.push(hb));
        hash
    }

    /// Forget the entry stored under `hash`, if any.
    pub fn remove(&mut self, hash: &[u8; 32])
        requires
            old(self).well_formed(),
        ensures
            final(self)@ == (LazyStoreModel { entries: spec_without(old(self)@.entries, hash@), cap: old(self)@.cap }),
            spec_store_wf(final(self)@),
            spec_total(final(self)@.entries) <= final(self)@.cap,
            final(self).well_formed(),
    {
        proof { lemma_without_wf(old(self)@, hash@); }
        match self.find(hash) {
            Some(i) => {
                let ghost before = self@.entries;
                let removed = self.entries.remove(i);
                proof {
                    assert(self@.entries =~= before.remove(i as int));
                    lemma_total_remove(before, i as int);
                    lemma_without_remove(before, hash@, i as int);
                    assert forall|a: int, b: int| 0 <= a < b < self@.entries.len() implies self@.entries[a].0 != self@.entries[b].0 by {
                        let a2 = if a < i { a } else { a + 1 };
                        let b2 = if b < i { b } else { b + 1 };
                        assert(self@.entries[a] == before[a2]);
                        assert(self@.entries[b] == before[b2]);
                    }
                    assert forall|a: int| 0 <= a < self@.entries.len() implies #[trigger] self@.entries[a].0 == spec_blake3(self@.entries[a].1) by {
                        let a2 = if a < i { a } else { a + 1 };
                        assert(self@.entries[a] == before[a2]);
                    }
                }
                self.total_bytes = self.total_bytes - removed.bytes.len();
            },
            None => {
                proof { lemma_lookup_absent(self@.entries, hash@); }
            },
        }
    }
}

impl Default for LazyStore {
    fn default() -> (s: LazyStore)
        ensures
            s@.entries == Seq::<EntryModel>::empty(),
            s@.cap == DEFAULT_TOTAL_CAP as nat,
            s.well_formed(),
    {
        LazyStore::new()
    }
}

/// The image item produced for `bytes`: inline when at most
/// [`INLINE_THRESHOLD`] bytes, otherwise an on-demand handle by hash.
pub open spec fn spec_image_item(bytes: Seq<u8>, format: ImageFormat) -> ClipItemModel {
    let h = spec_blake3(bytes);
    if bytes.len() <= INLINE_THRESHOLD {
        ClipItemModel::Image { format, hash: h, data: LazyPayloadModel::Inline(bytes) }
    } else {
        ClipItemModel::Image { format, hash: h, data: LazyPayloadModel::OnDemand { hash: h, size: bytes.len() as u64 } }
    }
}

/// Produce a `ClipItem::Image`, inline or lazy by [`INLINE_THRESHOLD`]; in
/// the lazy case the bytes go into `store`.
pub fn produce_image(store: &mut LazyStore, bytes: Vec<u8>, format: ImageFormat) -> (item: ClipItem)
    requires
        old(store).well_formed(),
    ensures
        item@ == spec_image_item(bytes@, format),
        bytes@.len() <= INLINE_THRESHOLD ==> final(store)@ == old(store)@,
        bytes@.len() > INLINE_THRESHOLD ==> final(store)@ == spec_insert(old(store)@, spec_blake3(bytes@), bytes@),
        final(store).well_formed(),
{
    let hash = blake3_hash(bytes.as_slice());
    let size = bytes.len() as u64;
    if bytes.len() <= INLINE_THRESHOLD {
        ClipItem::Image { format, hash, data: LazyPayload::Inline(bytes) }
    } else {
        store.insert(bytes);
        ClipItem::Image { format, hash, data: LazyPayload::OnDemand { hash, size } }
    }
}

/// Resolve a payload to bytes: inline bytes directly, on-demand ones from
/// `store` (`None` when not stored).
pub fn serve_fetch(store: &LazyStore, payload: &LazyPayload) -> (r: Option<Vec<u8>>)
    ensures
        match payload@ {
            LazyPayloadModel::Inline(b) => r matches Some(v) && v@ == b,
            LazyPayloadModel::OnDemand { hash, .. } => match r {
                Some(v) => spec_lookup(store@.entries, hash) == Some(v@),
                None => spec_lookup(store@.entries, hash) is None,
            },
        },
{
    match payload {
        LazyPayload::Inline(b) => Some(copy_bytes(b)),
        LazyPayload::OnDemand { hash, .. } => store.get(hash),
    }
}

} // verus!
