//! Clipboard sync engine: Lamport versioning, origin filtering (no echo
//! loops) and a bounded history of applied snapshots.
use vstd::prelude::*;
use crate::node::NodeId;
use crate::snapshot::{ClipItem, ClipItemModel, ClipboardSnapshot, SnapshotModel, ImageFormat};
use crate::lazy::{produce_image, LazyStore};

verus! {

/// Reasons a remote snapshot is not applied.
#[derive(Clone, Copy, Debug, PartialEq, Eq)]
pub enum Error {
    /// The snapshot did not move the clock forward.
    Stale { incoming: u64, local: u64 },
    /// The snapshot loops back to ourselves.
    SelfOrigin,
}

/// What to do with a snapshot handed to [`Engine::observe_remote`].
#[derive(Clone, Debug, PartialEq, Eq)]
pub enum Decision {
    /// Apply the snapshot to the local OS clipboard (and relay it).
    Apply(ClipboardSnapshot),
    /// Ignore it (echo, stale or self-originated).
    Ignore,
}

/// Mathematical model of an [`Engine`].
pub struct EngineModel {
    /// Our own node id.
    pub self_id: Seq<u8>,
    /// Current Lamport version.
    pub version: u64,
    /// Applied or produced snapshots, oldest first.
    pub history: Seq<SnapshotModel>,
    /// Maximum history length (at least 1).
    pub limit: nat,
}

/// Clipboard sync engine state.
pub struct Engine {
    self_id: NodeId,
    local_version: u64,
    history: Vec<ClipboardSnapshot>,
    history_limit: usize,
}

/// The last `limit` elements of `h` followed by `s`: the history after
/// recording `s`.
pub open spec fn spec_record(h: Seq<SnapshotModel>, limit: nat, s: SnapshotModel) -> Seq<SnapshotModel> {
    let p = h.push(s);
    if p.len() > limit {
        p.skip(p.len() - limit)
    } else {
        p
    }
}

/// Whether a remote snapshot is accepted: it must come from another node
/// and carry a version strictly newer than ours.
pub open spec fn spec_accepts(m: EngineModel, s: SnapshotModel) -> bool {
    s.origin != m.self_id && s.version > m.version
}

/// The engine after observing a remote snapshot.
pub open spec fn spec_observe(m: EngineModel, s: SnapshotModel) -> EngineModel {
    if spec_accepts(m, s) {
        EngineModel { version: s.version, history: spec_record(m.history, m.limit, s), ..m }
    } else {
        m
    }
}

/// The snapshot a local change produces.
pub open spec fn spec_local_snapshot(m: EngineModel, items: Seq<ClipItemModel>, created_unix_ms: u64) -> SnapshotModel {
    SnapshotModel {
        version: (m.version + 1) as u64,
        origin: m.self_id,
        created_unix_ms,
        items,
    }
}

/// The engine after producing a local snapshot.
pub open spec fn spec_produce(m: EngineModel, items: Seq<ClipItemModel>, created_unix_ms: u64) -> EngineModel {
    let s = spec_local_snapshot(m, items, created_unix_ms);
    EngineModel { version: s.version, history: spec_record(m.history, m.limit, s), ..m }
}

/// Well-formed engine models: a positive limit that the history respects.
pub open spec fn spec_engine_wf(m: EngineModel) -> bool {
    m.limit >= 1 && m.history.len() <= m.limit
}

/// Law: a node ignores the snapshot it has just produced when it comes
/// back to it (no echo loop), and its state is left unchanged.
pub proof fn law_own_snapshot_is_ignored(m: EngineModel, items: Seq<ClipItemModel>, created_unix_ms: u64)
    requires
        m.version < u64::MAX,
    ensures
        ({
            let after = spec_produce(m, items, created_unix_ms);
            let s = spec_local_snapshot(m, items, created_unix_ms);
            !spec_accepts(after, s) && spec_observe(after, s) == after
        }),
{
}

/// Law: observing the same snapshot twice has the effect of observing it
/// once; the second arrival is ignored.
pub proof fn law_observe_idempotent(m: EngineModel, s: SnapshotModel)
    ensures
        !spec_accepts(spec_observe(m, s), s),
        spec_observe(spec_observe(m, s), s) == spec_observe(m, s),
{
}

/// Law: snapshots from ourselves are never applied.
pub proof fn law_self_origin_ignored(m: EngineModel, s: SnapshotModel)
    requires
        s.origin == m.self_id,
    ensures
        spec_observe(m, s) == m,
{
}

/// Law: the Lamport clock never moves backwards, and a local change
/// always moves it forward by one.
pub proof fn law_clock_monotone(m: EngineModel, s: SnapshotModel, items: Seq<ClipItemModel>, created_unix_ms: u64)
    requires
        m.version < u64::MAX,
    ensures
        spec_observe(m, s).version >= m.version,
        spec_produce(m, items, created_unix_ms).version == m.version + 1,
{
}

/// Law: after applying a remote snapshot at version `v`, the next local
/// change carries version `v + 1`, so no two snapshots on the network
/// share a clock value.
pub proof fn law_local_after_remote_is_newer(m: EngineModel, s: SnapshotModel, items: Seq<ClipItemModel>, created_unix_ms: u64)
    requires
        spec_accepts(m, s),
        s.version < u64::MAX,
    ensures
        spec_local_snapshot(spec_observe(m, s), items, created_unix_ms).version == s.version + 1,
{
}

/// Law: the history never grows beyond its limit, and its newest entry is
/// the snapshot just recorded.
pub proof fn law_history_bounded(m: EngineModel, s: SnapshotModel)
    requires
        spec_engine_wf(m),
    ensures
        spec_engine_wf(spec_observe(m, s)),
        spec_accepts(m, s) ==> spec_observe(m, s).history.last() == s,
        m.version < u64::MAX ==> spec_engine_wf(spec_produce(m, s.items, s.created_unix_ms)),
{
}

impl View for Engine {
    type V = EngineModel;

    closed spec fn view(&self) -> EngineModel {
        EngineModel {
            self_id: self.self_id@,
            version: self.local_version,
            history: self.history@.map_values(|s: ClipboardSnapshot| s@),
            limit: self.history_limit as nat,
        }
    }
}

/// Wall-clock milliseconds since the Unix epoch (0 if the clock reads
/// earlier than the epoch).
#[verifier::external_body]
fn unix_millis_now() -> u64 {
    match std::time::SystemTime::now().duration_since(std::time::UNIX_EPOCH) {
        Ok(d) => d.as_millis() as u64,
        Err(_) => 0,
    }
}

impl Engine {
    #[verifier::type_invariant]
    closed spec fn inv(&self) -> bool {
        self.history_limit >= 1 && self.history@.len() <= self.history_limit
    }

    /// New engine for node `self_id` keeping at most `history_limit`
    /// snapshots (at least one).
    pub fn new(self_id: NodeId, history_limit: usize) -> (e: Engine)
        ensures
            e@.self_id == self_id@,
            e@.version == 0,
            e@.history == Seq::<SnapshotModel>::empty(),
            e@.limit == if history_limit >= 1 { history_limit as nat } else { 1 },
            spec_engine_wf(e@),
    {
        let limit = if history_limit >= 1 { history_limit } else { 1 };
        let e = Engine { self_id, local_version: 0, history: Vec::new(), history_limit: limit };
        assert(e@.history =~= Seq::<SnapshotModel>::empty());
        e
    }

    fn push_history(&mut self, snap: ClipboardSnapshot)
        ensures
            final(self)@ == (EngineModel { history: spec_record(old(self)@.history, old(self)@.limit, snap@), ..old(self)@ }),
            spec_engine_wf(final(self)@),
    {
        proof { use_type_invariant(&*self); }
        let ghost old_h = self.history@;
        let mut h: Vec<ClipboardSnapshot> = Vec::new();
        std::mem::swap(&mut h, &mut self.history);
        if h.len() == self.history_limit {
            h.remove(0);
        }
        h.push(snap);
        self.history = h;
        proof {
            let p = old_h.map_values(|s: ClipboardSnapshot| s@).push(snap@);
            if old_h.len() == self.history_limit {
                assert(self.history@ =~= old_h.skip(1).push(snap));
            } else {
                assert(self.history@ =~= old_h.push(snap));
            }
            assert(self.history@.map_values(|s: ClipboardSnapshot| s@) =~= spec_record(
                old_h.map_values(|s: ClipboardSnapshot| s@),
                self.history_limit as nat,
                snap@,
            ));
        }
    }

    /// Record a local text change, stamped with the given wall-clock time.
    /// Bumps the version and returns the snapshot to broadcast.
    pub fn produce_text_at(&mut self, text: String, created_unix_ms: u64) -> (s: ClipboardSnapshot)
        requires
            old(self)@.version < u64::MAX,
        ensures
            s@ == spec_local_snapshot(old(self)@, seq![ClipItemModel::Text(text@)], created_unix_ms),
            final(self)@ == spec_produce(old(self)@, seq![ClipItemModel::Text(text@)], created_unix_ms),
            spec_engine_wf(final(self)@),
    {
        let ghost t = text@;
        let items = vec![ClipItem::Text(text)];
        assert(crate::snapshot::items_model(items@) =~= seq![ClipItemModel::Text(t)]);
        self.produce_items(items, created_unix_ms)
    }

    fn produce_items(&mut self, items: Vec<ClipItem>, created_unix_ms: u64) -> (s: ClipboardSnapshot)
        requires
            old(self)@.version < u64::MAX,
        ensures
            s@ == spec_local_snapshot(old(self)@, crate::snapshot::items_model(items@), created_unix_ms),
            final(self)@ == spec_produce(old(self)@, crate::snapshot::items_model(items@), created_unix_ms),
            spec_engine_wf(final(self)@),
    {
        proof { use_type_invariant(&*self); }
        self.local_version = self.local_version + 1;
        let snap = ClipboardSnapshot {
            version: self.local_version,
            origin: self.self_id,
            created_unix_ms,
            items,
        };
        let copy = snap.duplicate();
        self.push_history(copy);
        snap
    }

    /// Record a local text change reported by the OS. Bumps the version
    /// and returns the snapshot to broadcast; its timestamp is the current
    /// wall-clock time.
    pub fn produce_text(&mut self, text: String) -> (s: ClipboardSnapshot)
        requires
            old(self)@.version < u64::MAX,
        ensures
            s@ == spec_local_snapshot(old(self)@, seq![ClipItemModel::Text(text@)], s.created_unix_ms),
            final(self)@ == spec_produce(old(self)@, seq![ClipItemModel::Text(text@)], s.created_unix_ms),
            spec_engine_wf(final(self)@),
    {
        let now = unix_millis_now();
        self.produce_text_at(text, now)
    }

    /// Process an inbound snapshot: apply it when it comes from another
    /// node with a newer version (advancing our clock to it), ignore it
    /// otherwise.
    pub fn observe_remote(&mut self, snap: ClipboardSnapshot) -> (d: Decision)
        ensures
            final(self)@ == spec_observe(old(self)@, snap@),
            spec_accepts(old(self)@, snap@) ==> d == Decision::Apply(snap),
            !spec_accepts(old(self)@, snap@) ==> d == Decision::Ignore,
            spec_engine_wf(final(self)@),
    {
        proof { use_type_invariant(&*self); }
        if snap.origin == self.self_id {
            return Decision::Ignore;
        }
        if snap.version <= self.local_version {
            return Decision::Ignore;
        }
        self.local_version = snap.version;
        let copy = snap.duplicate();
        self.push_history(copy);
        Decision::Apply(snap)
    }

    /// Record a local image change: the bytes are inlined or hosted in
    /// `store` by size (see [`produce_image`]); bumps the version and
    /// returns the snapshot to broadcast, stamped with the current time.
    pub fn produce_image_snapshot(&mut self, store: &mut LazyStore, bytes: Vec<u8>, format: ImageFormat) -> (s: ClipboardSnapshot)
        requires
            old(self)@.version < u64::MAX,
            old(store).well_formed(),
        ensures
            s@ == spec_local_snapshot(old(self)@, seq![crate::lazy::spec_image_item(bytes@, format)], s.created_unix_ms),
            final(self)@ == spec_produce(old(self)@, seq![crate::lazy::spec_image_item(bytes@, format)], s.created_unix_ms),
            spec_engine_wf(final(self)@),
            bytes@.len() <= crate::lazy::INLINE_THRESHOLD ==> final(store)@ == old(store)@,
            bytes@.len() > crate::lazy::INLINE_THRESHOLD ==> final(store)@ == crate::lazy::spec_insert(old(store)@, crate::digest::spec_blake3(bytes@), bytes@),
            final(store).well_formed(),
    {
        let item = produce_image(store, bytes, format);
        let ghost im = item@;
        let items = vec![item];
        assert(crate::snapshot::items_model(items@) =~= seq![im]);
        let now = unix_millis_now();
        self.produce_items(items, now)
    }

    /// Copy of the history, oldest first.
    pub fn history(&self) -> (h: Vec<ClipboardSnapshot>)
        ensures
            h@.map_values(|s: ClipboardSnapshot| s@) == self@.history,
    {
        let mut h: Vec<ClipboardSnapshot> = Vec::new();
        let mut i: usize = 0;
        while i < self.history.len()
            invariant
                0 <= i <= self.history@.len(),
                h@.len() == i,
                forall|j: int| 0 <= j < i ==> h@[j]@ == self.history@[j]@,
            decreases self.history.len() - i,
        {
            h.push(self.history[i].duplicate());
            i = i + 1;
        }
        assert(h@.map_values(|s: ClipboardSnapshot| s@) =~= self@.history);
        h
    }

    /// Current Lamport version.
    pub fn version(&self) -> (v: u64)
        ensures
            v == self@.version,
    {
        self.local_version
    }

    /// Our own node id.
    pub fn self_id(&self) -> (id: NodeId)
        ensures
            id@ == self@.self_id,
    {
        self.self_id
    }
}

} // verus!
