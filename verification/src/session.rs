//! What the hub and a spoke do with each frame of a live session, and the
//! spoke's reconnect schedule.
//!
//! The hub is the only node that captures input: input frames from spokes
//! are dropped. Clipboard snapshots that the hub's engine accepts are
//! applied locally and relayed to every other spoke; fetch requests are
//! answered from the hub's lazy store. A spoke applies accepted clipboard
//! snapshots, injects input when enabled, and answers fetch requests with
//! a miss (it hosts no store). A spoke that loses its session redials
//! after 1, 2, 5, 15, then every 60 seconds.
use vstd::prelude::*;
use crate::clipboard::{spec_accepts, spec_engine_wf, spec_local_snapshot, spec_observe, spec_produce, Engine};
use crate::hexcodec::{hex_decode, spec_hex_decode};
use crate::input::InputEvent;
use crate::lazy::{spec_lookup, LazyStore};
use crate::node::{ids_equal, NodeId};
use crate::snapshot::{ClipItemModel, ClipboardSnapshot};
use crate::wire::{chunk_fetch_response, spec_chunk_count, spec_is_chunk_frame, WireFrame};

verus! {

/// What the hub does with a frame from a spoke.
pub enum HubAction {
    /// Apply the snapshot locally and relay it to every other spoke.
    ApplyAndRelay(ClipboardSnapshot),
    /// Send these frames back to the spoke.
    Reply(Vec<WireFrame>),
    /// Drop input sent by a spoke: only the hub captures input.
    DropInput,
    /// Nothing to do.
    Ignore,
}

/// Handle one frame received from a spoke.
pub fn hub_on_frame(engine: &mut Engine, lazy: &LazyStore, frame: WireFrame) -> (a: HubAction)
    ensures
        frame matches WireFrame::Clipboard(s) ==> {
            &&& final(engine)@ == spec_observe(old(engine)@, s@)
            &&& spec_accepts(old(engine)@, s@) ==> a == HubAction::ApplyAndRelay(s)
            &&& !spec_accepts(old(engine)@, s@) ==> a == HubAction::Ignore
        },
        !(frame is Clipboard) ==> final(engine)@ == old(engine)@,
        frame is Input ==> a == HubAction::DropInput,
        frame matches WireFrame::FetchRequest { hash } ==> (a matches HubAction::Reply(frames) && match spec_lookup(lazy@.entries, hash@) {
            Some(b) => frames@.len() == spec_chunk_count(b.len())
                && forall|i: int| 0 <= i < frames@.len() ==> spec_is_chunk_frame(#[trigger] frames@[i], hash@, b, i),
            None => frames@ == seq![WireFrame::FetchMiss { hash }],
        }),
        (frame is FetchResponse || frame is FetchMiss || frame is Control) ==> a == HubAction::Ignore,
        spec_engine_wf(old(engine)@) ==> spec_engine_wf(final(engine)@),
{
    match frame {
        WireFrame::Clipboard(snap) => {
            match engine.observe_remote(snap) {
                crate::clipboard::Decision::Apply(s) => HubAction::ApplyAndRelay(s),
                crate::clipboard::Decision::Ignore => HubAction::Ignore,
            }
        },
        WireFrame::Input(_) => HubAction::DropInput,
        WireFrame::FetchRequest { hash } => {
            match lazy.get(&hash) {
                Some(bytes) => HubAction::Reply(chunk_fetch_response(hash, bytes.as_slice())),
                None => HubAction::Reply(vec![WireFrame::FetchMiss { hash }]),
            }
        },
        _ => HubAction::Ignore,
    }
}

/// The peers a frame goes to: all of them, or all but `exclude`, in order.
pub open spec fn spec_targets(peers: Seq<NodeId>, exclude: Option<NodeId>) -> Seq<NodeId> {
    peers.filter(|p: NodeId| !(exclude matches Some(e) && p@ == e@))
}

/// The peers to send a broadcast frame to: every connected peer except
/// `exclude` (the one the frame came from), in the given order.
pub fn broadcast_targets(peers: &[NodeId], exclude: Option<NodeId>) -> (t: Vec<NodeId>)
    ensures
        t@ == spec_targets(peers@, exclude),
{
    let mut t: Vec<NodeId> = Vec::new();
    let mut i: usize = 0;
    while i < peers.len()
        invariant
            0 <= i <= peers@.len(),
            t@ == spec_targets(peers@.take(i as int), exclude),
        decreases peers.len() - i,
    {
        let p = peers[i];
        let skip = match &exclude {
            Some(e) => ids_equal(&p, e),
            None => false,
        };
        proof {
            let f = |q: NodeId| !(exclude matches Some(e) && q@ == e@);
            assert(peers@.take(i + 1).drop_last() =~= peers@.take(i as int));
            assert(peers@.take(i + 1).last() == p);
            reveal(Seq::filter);
            assert(peers@.take(i + 1).filter(f) == if f(p) {
                peers@.take(i as int).filter(f).push(p)
            } else {
                peers@.take(i as int).filter(f)
            });
        }
        if !skip {
            t.push(p);
        }
        i = i + 1;
    }
    assert(peers@.take(peers@.len() as int) =~= peers@);
    t
}

/// Law: a relayed frame never goes back to the peer it came from, and
/// every other connected peer gets it.
pub proof fn law_broadcast_targets(peers: Seq<NodeId>, from: NodeId)
    ensures
        forall|i: int| 0 <= i < spec_targets(peers, Some(from)).len() ==> (#[trigger] spec_targets(peers, Some(from))[i])@ != from@,
        forall|i: int| 0 <= i < peers.len() && (#[trigger] peers[i])@ != from@ ==> spec_targets(peers, Some(from)).contains(peers[i]),
        spec_targets(peers, None) == peers,
{
    let f = |q: NodeId| !(Some(from) matches Some(e) && q@ == e@);
    assert forall|i: int| 0 <= i < peers.filter(f).len() implies (#[trigger] peers.filter(f)[i])@ != from@ by {
        peers.lemma_filter_pred(f, i);
    }
    assert forall|i: int| 0 <= i < peers.len() && (#[trigger] peers[i])@ != from@ implies peers.filter(f).contains(peers[i]) by {
        peers.lemma_filter_contains(f, i);
    }
    lemma_targets_none(peers);
}

proof fn lemma_targets_none(s: Seq<NodeId>)
    ensures
        spec_targets(s, None) == s,
    decreases s.len(),
{
    reveal(Seq::filter);
    if s.len() > 0 {
        lemma_targets_none(s.drop_last());
        assert(s.drop_last().push(s.last()) =~= s);
    } else {
        assert(spec_targets(s, None) =~= s);
    }
}

/// What a spoke does with a frame from the hub.
pub enum SpokeAction {
    /// Write the snapshot to the local clipboard.
    Apply(ClipboardSnapshot),
    /// Inject the input event locally.
    Emit(InputEvent),
    /// Send this frame back to the hub.
    Send(WireFrame),
    /// Nothing to do.
    Ignore,
}

/// Handle one frame received from the hub. Input is injected only when
/// `input_enabled`.
pub fn spoke_on_frame(engine: &mut Engine, frame: WireFrame, input_enabled: bool) -> (a: SpokeAction)
    ensures
        frame matches WireFrame::Clipboard(s) ==> {
            &&& final(engine)@ == spec_observe(old(engine)@, s@)
            &&& spec_accepts(old(engine)@, s@) ==> a == SpokeAction::Apply(s)
            &&& !spec_accepts(old(engine)@, s@) ==> a == SpokeAction::Ignore
        },
        !(frame is Clipboard) ==> final(engine)@ == old(engine)@,
        frame matches WireFrame::Input(ev) ==> a == (if input_enabled { SpokeAction::Emit(ev) } else { SpokeAction::Ignore }),
        frame matches WireFrame::FetchRequest { hash } ==> a == SpokeAction::Send(WireFrame::FetchMiss { hash }),
        (frame is FetchResponse || frame is FetchMiss || frame is Control) ==> a == SpokeAction::Ignore,
        spec_engine_wf(old(engine)@) ==> spec_engine_wf(final(engine)@),
{
    match frame {
        WireFrame::Clipboard(snap) => {
            match engine.observe_remote(snap) {
                crate::clipboard::Decision::Apply(s) => SpokeAction::Apply(s),
                crate::clipboard::Decision::Ignore => SpokeAction::Ignore,
            }
        },
        WireFrame::Input(ev) => {
            if input_enabled {
                SpokeAction::Emit(ev)
            } else {
                SpokeAction::Ignore
            }
        },
        WireFrame::FetchRequest { hash } => SpokeAction::Send(WireFrame::FetchMiss { hash }),
        _ => SpokeAction::Ignore,
    }
}

/// A local clipboard text change as the frame to send: the engine records
/// it as a new snapshot (bumping its version) stamped with the current
/// time.
pub fn watch_to_frame(engine: &mut Engine, text: String) -> (f: WireFrame)
    requires
        old(engine)@.version < u64::MAX,
    ensures
        f matches WireFrame::Clipboard(s) && s@ == spec_local_snapshot(old(engine)@, seq![ClipItemModel::Text(text@)], s.created_unix_ms)
            && final(engine)@ == spec_produce(old(engine)@, seq![ClipItemModel::Text(text@)], s.created_unix_ms),
{
    let snap = engine.produce_text(text);
    WireFrame::Clipboard(snap)
}

/// Seconds to wait before redial number `idx` (counting from 0) after
/// failed sessions: 1, 2, 5, 15, then 60 from the fifth on.
pub open spec fn spec_backoff_secs(idx: nat) -> u64 {
    if idx == 0 {
        1
    } else if idx == 1 {
        2
    } else if idx == 2 {
        5
    } else if idx == 3 {
        15
    } else {
        60
    }
}

/// The last position of the backoff schedule.
pub const BACKOFF_LAST: usize = 4;

/// Seconds to wait before redialling, at position `idx` of the schedule.
pub fn backoff_delay_secs(idx: usize) -> (s: u64)
    ensures
        s == spec_backoff_secs(idx as nat),
{
    match idx {
        0 => 1,
        1 => 2,
        2 => 5,
        3 => 15,
        _ => 60,
    }
}

/// The schedule position after a session ends: back to the start after a
/// clean end, one step further (up to the last) after a failure.
pub open spec fn spec_next_backoff(idx: nat, failed: bool) -> nat {
    if !failed {
        0
    } else if idx + 1 < BACKOFF_LAST {
        idx + 1
    } else {
        BACKOFF_LAST as nat
    }
}

/// The schedule position after a session ends.
pub fn next_backoff_index(idx: usize, failed: bool) -> (n: usize)
    requires
        idx < usize::MAX,
    ensures
        n == spec_next_backoff(idx as nat, failed),
{
    if !failed {
        0
    } else if idx + 1 < BACKOFF_LAST {
        idx + 1
    } else {
        BACKOFF_LAST
    }
}

/// Position after `k` failures in a row from `idx`.
pub open spec fn spec_after_failures(idx: nat, k: nat) -> nat
    decreases k,
{
    if k == 0 {
        idx
    } else {
        spec_next_backoff(spec_after_failures(idx, (k - 1) as nat), true)
    }
}

/// Law: waits never shrink along the schedule and never exceed a minute.
pub proof fn law_backoff_monotone(i: nat, j: nat)
    requires
        i <= j,
    ensures
        spec_backoff_secs(i) <= spec_backoff_secs(j),
        spec_backoff_secs(j) <= 60,
{
}

/// Law: after `k` failures in a row from the start, the spoke waits the
/// `k`-th step of 1, 2, 5, 15, 60 seconds, staying at 60 from then on;
/// a clean session end restarts the schedule.
pub proof fn law_backoff_schedule(k: nat)
    ensures
        spec_after_failures(0, k) == if k < BACKOFF_LAST { k } else { BACKOFF_LAST as nat },
        spec_backoff_secs(spec_after_failures(0, k)) == spec_backoff_secs(if k < BACKOFF_LAST { k } else { BACKOFF_LAST as nat }),
        forall|i: nat| spec_next_backoff(i, false) == 0,
    decreases k,
{
    if k > 0 {
        law_backoff_schedule((k - 1) as nat);
    }
}

/// Why a pinned key could not be read.
#[derive(Clone, Copy, Debug, PartialEq, Eq, Structural)]
pub enum PubkeyError {
    /// The text is not hex.
    NotHex,
    /// The hex does not encode 32 bytes.
    WrongLength { len: usize },
}

/// Parse a 32-byte public key written as hex (64 digits, either case).
pub fn parse_pubkey(s: &str) -> (r: Result<[u8; 32], PubkeyError>)
    ensures
        spec_hex_decode(s@) is None ==> r == Err::<[u8; 32], PubkeyError>(PubkeyError::NotHex),
        spec_hex_decode(s@) matches Some(b) ==> (b.len() != 32 ==> r == Err::<[u8; 32], PubkeyError>(PubkeyError::WrongLength { len: b.len() as usize })),
        spec_hex_decode(s@) matches Some(b) ==> (b.len() == 32 ==> (r matches Ok(k) && k@ == b)),
{
    match hex_decode(s) {
        None => Err(PubkeyError::NotHex),
        Some(bytes) => {
            if bytes.len() != 32 {
                return Err(PubkeyError::WrongLength { len: bytes.len() });
            }
            let mut out = [0u8; 32];
            let mut i: usize = 0;
            while i < 32
                invariant
                    0 <= i <= 32,
                    bytes@.len() == 32,
                    forall|j: int| 0 <= j < i ==> out@[j] == bytes@[j],
                decreases 32 - i,
            {
                out[i] = bytes[i];
                i = i + 1;
            }
            assert(out@ =~= bytes@);
            Ok(out)
        },
    }
}

/// The positions whose flag is `b`, in order.
pub open spec fn spec_positions(flags: Seq<bool>, b: bool) -> Seq<usize>
    decreases flags.len(),
{
    if flags.len() == 0 {
        Seq::empty()
    } else if flags.last() == b {
        spec_positions(flags.drop_last(), b).push((flags.len() - 1) as usize)
    } else {
        spec_positions(flags.drop_last(), b)
    }
}

fn push_positions(out: &mut Vec<usize>, flags: &[bool], b: bool)
    ensures
        final(out)@ == old(out)@ + spec_positions(flags@, b),
{
    let mut i: usize = 0;
    while i < flags.len()
        invariant
            0 <= i <= flags@.len(),
            out@ == old(out)@ + spec_positions(flags@.take(i as int), b),
        decreases flags.len() - i,
    {
        proof {
            assert(flags@.take(i + 1).drop_last() =~= flags@.take(i as int));
            assert(flags@.take(i + 1).last() == flags@[i as int]);
        }
        if flags[i] == b {
            out.push(i);
        }
        i = i + 1;
    }
    assert(flags@.take(flags@.len() as int) =~= flags@);
}

/// The order to try resolved addresses in: IPv4 ones first, then the
/// others, each group in resolver order. `is_ipv4[i]` tells whether the
/// `i`-th address is IPv4; the result lists positions.
pub fn ipv4_first_order(is_ipv4: &[bool]) -> (order: Vec<usize>)
    ensures
        order@ == spec_positions(is_ipv4@, true) + spec_positions(is_ipv4@, false),
{
    let mut order: Vec<usize> = Vec::new();
    push_positions(&mut order, is_ipv4, true);
    push_positions(&mut order, is_ipv4, false);
    assert(order@ =~= spec_positions(is_ipv4@, true) + spec_positions(is_ipv4@, false));
    order
}

} // verus!
