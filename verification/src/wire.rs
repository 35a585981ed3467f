//! Wire frames and their length-prefixed framing.
//!
//! Every message travels over one TLS stream as `u32-LE length || payload`,
//! the payload being a postcard-encoded [`WireFrame`].
use vstd::prelude::*;
use crate::input::InputEvent;
use crate::node::{NodeId, ProtocolVersion};
use crate::snapshot::ClipboardSnapshot;

verus! {

/// The root enum every encoded frame is wrapped in.
#[derive(Clone, Debug, PartialEq, Eq)]
pub enum WireFrame {
    /// Connection bring-up, tear-down and liveness.
    Control(ControlFrame),
    /// Input event (hub to spoke only).
    Input(InputEvent),
    /// Clipboard update.
    Clipboard(ClipboardSnapshot),
    /// Request the bytes of an out-of-line payload by hash.
    FetchRequest { hash: [u8; 32] },
    /// One chunk of a fetched payload: chunk `chunk_idx` of `total`.
    FetchResponse { hash: [u8; 32], chunk_idx: u32, total: u32, bytes: Vec<u8> },
    /// The requested hash is unknown here.
    FetchMiss { hash: [u8; 32] },
}

/// Connection-level signalling.
#[derive(Clone, Debug, PartialEq, Eq)]
pub enum ControlFrame {
    /// First frame on a connection: identity and highest protocol version.
    Hello { node_id: NodeId, name: String, max_protocol: ProtocolVersion },
    /// Reply to `Hello` with the negotiated version.
    Welcome { node_id: NodeId, name: String, protocol: ProtocolVersion },
    /// Liveness probe.
    Ping { nonce: u64 },
    /// Liveness reply echoing the nonce.
    Pong { nonce: u64 },
    /// Graceful disconnect.
    Bye { reason: String },
}

/// Largest payload accepted for a wire frame: 64 MiB.
pub const MAX_FRAME: usize = 64 * 1024 * 1024;

/// Largest payload accepted for a signed hello: 16 KiB.
pub const MAX_HELLO: usize = 16 * 1024;

/// Why a frame was refused.
#[derive(Clone, Copy, Debug, PartialEq, Eq)]
pub enum FrameError {
    /// The payload (or the announced length) exceeds the limit.
    TooLarge { len: usize, max: usize },
}

/// Little-endian bytes of a 32-bit length.
pub open spec fn spec_le32(n: u32) -> Seq<u8> {
    seq![(n % 256) as u8, ((n / 256) % 256) as u8, ((n / 65536) % 256) as u8, (n / 16777216) as u8]
}

/// Value of four little-endian bytes.
pub open spec fn spec_le32_value(b: Seq<u8>) -> nat
    recommends
        b.len() >= 4,
{
    (b[0] + 256 * b[1] + 65536 * b[2] + 16777216 * b[3]) as nat
}

/// A framed payload: its length as `u32` little-endian, then the payload.
pub open spec fn spec_framed(payload: Seq<u8>) -> Seq<u8> {
    spec_le32(payload.len() as u32) + payload
}

/// What the front of `buf` holds: `Err` when the announced length exceeds
/// `max`, `Ok(None)` when more bytes are needed, `Ok(Some((payload, used)))`
/// for a complete frame that occupies the first `used` bytes.
pub open spec fn spec_parse_frame(buf: Seq<u8>, max: nat) -> Result<Option<(Seq<u8>, nat)>, FrameError> {
    if buf.len() < 4 {
        Ok(None)
    } else if spec_le32_value(buf) > max {
        Err(FrameError::TooLarge { len: spec_le32_value(buf) as usize, max: max as usize })
    } else if buf.len() < 4 + spec_le32_value(buf) {
        Ok(None)
    } else {
        Ok(Some((buf.subrange(4, 4 + spec_le32_value(buf) as int), 4 + spec_le32_value(buf))))
    }
}

proof fn lemma_le32(n: u32)
    ensures
        spec_le32_value(spec_le32(n)) == n,
{
    assert((n % 256) + 256 * ((n / 256) % 256) + 65536 * ((n / 65536) % 256) + 16777216 * (n / 16777216) == n) by (bit_vector);
}

/// Little-endian bytes of a 32-bit value.
pub fn le32_bytes(n: u32) -> (b: [u8; 4])
    ensures
        b@ == spec_le32(n),
{
    let b = [(n % 256) as u8, ((n / 256) % 256) as u8, ((n / 65536) % 256) as u8, (n / 16777216) as u8];
    assert(b@ =~= spec_le32(n));
    b
}

/// Value of four little-endian bytes.
pub fn le32_value(b: &[u8; 4]) -> (n: u32)
    ensures
        n as nat == spec_le32_value(b@),
{
    let v: u32 = b[0] as u32 + 256 * (b[1] as u32) + 65536 * (b[2] as u32) + 16777216 * (b[3] as u32);
    v
}

/// Frame a payload for the stream: refuses payloads above `max`.
pub fn encode_frame(payload: &[u8], max: usize) -> (r: Result<Vec<u8>, FrameError>)
    requires
        max <= u32::MAX,
    ensures
        payload@.len() > max ==> r == Err::<Vec<u8>, FrameError>(FrameError::TooLarge { len: payload@.len() as usize, max }),
        payload@.len() <= max ==> (r matches Ok(v) && v@ == spec_framed(payload@)),
{
    if payload.len() > max {
        return Err(FrameError::TooLarge { len: payload.len(), max });
    }
    let header = le32_bytes(payload.len() as u32);
    let mut out: Vec<u8> = Vec::new();
    out.extend_from_slice(header.as_slice());
    out.extend_from_slice(payload);
    assert(out@ =~= spec_framed(payload@));
    Ok(out)
}

/// Check a frame header read from the stream: the announced payload length,
/// or an error when it exceeds `max`.
pub fn frame_len(header: &[u8; 4], max: usize) -> (r: Result<usize, FrameError>)
    ensures
        spec_le32_value(header@) > max ==> r == Err::<usize, FrameError>(FrameError::TooLarge { len: spec_le32_value(header@) as usize, max }),
        spec_le32_value(header@) <= max ==> r == Ok::<usize, FrameError>(spec_le32_value(header@) as usize),
{
    let n = le32_value(header) as usize;
    if n > max {
        Err(FrameError::TooLarge { len: n, max })
    } else {
        Ok(n)
    }
}

/// Parse the frame at the front of `buf` (see [`spec_parse_frame`]).
pub fn parse_frame(buf: &[u8], max: usize) -> (r: Result<Option<(Vec<u8>, usize)>, FrameError>)
    ensures
        match (r, spec_parse_frame(buf@, max as nat)) {
            (Ok(None), Ok(None)) => true,
            (Ok(Some((p, used))), Ok(Some((sp, sused)))) => p@ == sp && used == sused,
            (Err(e), Err(se)) => e == se,
            _ => false,
        },
{
    if buf.len() < 4 {
        return Ok(None);
    }
    let header: [u8; 4] = [buf[0], buf[1], buf[2], buf[3]];
    assert(header@ =~= buf@.subrange(0, 4));
    let n = match frame_len(&header, max) {
        Ok(n) => n,
        Err(e) => return Err(e),
    };
    if buf.len() - 4 < n {
        return Ok(None);
    }
    let end = 4 + n;
    let mut payload: Vec<u8> = Vec::with_capacity(n);
    let mut k: usize = 4;
    while k < end
        invariant
            4 <= k <= end,
            end == 4 + n,
            end <= buf@.len(),
            payload@ =~= buf@.subrange(4, k as int),
        decreases end - k,
    {
        payload.push(buf[k]);
        k = k + 1;
    }
    Ok(Some((payload, 4 + n)))
}

/// Law: a framed payload parses back to itself, consuming exactly the
/// frame, whatever bytes follow it.
pub proof fn law_frame_round_trip(payload: Seq<u8>, rest: Seq<u8>, max: nat)
    requires
        payload.len() <= max,
        max <= u32::MAX,
    ensures
        spec_parse_frame(spec_framed(payload) + rest, max) == Ok::<Option<(Seq<u8>, nat)>, FrameError>(Some((payload, 4 + payload.len()))),
{
    lemma_le32(payload.len() as u32);
    let buf = spec_framed(payload) + rest;
    assert(buf.subrange(0, 4) =~= spec_le32(payload.len() as u32));
    assert(spec_le32_value(buf) == spec_le32_value(spec_le32(payload.len() as u32)));
    assert(buf.subrange(4, 4 + payload.len() as int) =~= payload);
}

/// Maximum bytes per `FetchResponse` chunk: 256 KiB.
pub const FETCH_CHUNK_SIZE: usize = 256 * 1024;

/// Number of chunks a payload of `len` bytes is served in (at least one).
pub open spec fn spec_chunk_count(len: nat) -> nat {
    if len == 0 {
        1
    } else {
        ((len + FETCH_CHUNK_SIZE - 1) / FETCH_CHUNK_SIZE as int) as nat
    }
}

/// Bytes of chunk `i`.
pub open spec fn spec_chunk(bytes: Seq<u8>, i: int) -> Seq<u8> {
    let end = if (i + 1) * FETCH_CHUNK_SIZE < bytes.len() { (i + 1) * FETCH_CHUNK_SIZE } else { bytes.len() as int };
    bytes.subrange(i * FETCH_CHUNK_SIZE, end)
}

/// Chunk frame `i` of `bytes` is a `FetchResponse` for `hash` with index
/// `i`, the chunk count, and the `i`-th slice of at most
/// [`FETCH_CHUNK_SIZE`] bytes.
pub open spec fn spec_is_chunk_frame(f: WireFrame, hash: Seq<u8>, bytes: Seq<u8>, i: int) -> bool {
    match f {
        WireFrame::FetchResponse { hash: h, chunk_idx, total, bytes: b } => {
            &&& h@ == hash
            &&& chunk_idx == i as u32
            &&& total == spec_chunk_count(bytes.len()) as u32
            &&& b@ == spec_chunk(bytes, i)
        },
        _ => false,
    }
}

/// Split a payload into `FetchResponse` frames of at most
/// [`FETCH_CHUNK_SIZE`] bytes; an empty payload is one empty chunk.
pub fn chunk_fetch_response(hash: [u8; 32], bytes: &[u8]) -> (frames: Vec<WireFrame>)
    ensures
        frames@.len() == spec_chunk_count(bytes@.len()),
        forall|i: int| 0 <= i < frames@.len() ==> spec_is_chunk_frame(#[trigger] frames@[i], hash@, bytes@, i),
{
    let mut frames: Vec<WireFrame> = Vec::new();
    if bytes.len() == 0 {
        frames.push(WireFrame::FetchResponse { hash, chunk_idx: 0, total: 1, bytes: Vec::new() });
        assert(spec_chunk(bytes@, 0) =~= Seq::<u8>::empty());
        return frames;
    }
    let len = bytes.len();
    let count = len / FETCH_CHUNK_SIZE + if len % FETCH_CHUNK_SIZE == 0 { 0 } else { 1 };
    assert(count == spec_chunk_count(len as nat)) by (nonlinear_arith)
        requires
            len > 0,
            count == len / FETCH_CHUNK_SIZE + if len % FETCH_CHUNK_SIZE == 0 { 0usize } else { 1usize },
            FETCH_CHUNK_SIZE == 262144,
    ;
    let total = #[verifier::truncate] (count as u32);
    let mut i: usize = 0;
    while i < count
        invariant
            0 < len == bytes@.len(),
            count == spec_chunk_count(len as nat),
            total == count as u32,
            i <= count,
            frames@.len() == i,
            forall|j: int| 0 <= j < i ==> spec_is_chunk_frame(#[trigger] frames@[j], hash@, bytes@, j),
        decreases count - i,
    {
        assert(i * FETCH_CHUNK_SIZE < len) by (nonlinear_arith)
            requires
                i < count,
                count == spec_chunk_count(len as nat),
                len > 0,
                FETCH_CHUNK_SIZE == 262144,
        ;
        let start = i * FETCH_CHUNK_SIZE;
        let end = if len - start > FETCH_CHUNK_SIZE { start + FETCH_CHUNK_SIZE } else { len };
        let mut chunk: Vec<u8> = Vec::with_capacity(end - start);
        let mut k: usize = start;
        while k < end
            invariant
                start <= k <= end <= len == bytes@.len(),
                chunk@ =~= bytes@.subrange(start as int, k as int),
            decreases end - k,
        {
            chunk.push(bytes[k]);
            k = k + 1;
        }
        assert(chunk@ == spec_chunk(bytes@, i as int));
        let idx = #[verifier::truncate] (i as u32);
        frames.push(WireFrame::FetchResponse { hash, chunk_idx: idx, total, bytes: chunk });
        i = i + 1;
    }
    frames
}

/// The first `n` chunks of `bytes`, concatenated.
pub open spec fn spec_chunks_joined(bytes: Seq<u8>, n: nat) -> Seq<u8>
    decreases n,
{
    if n == 0 {
        Seq::empty()
    } else {
        spec_chunks_joined(bytes, (n - 1) as nat) + spec_chunk(bytes, n - 1)
    }
}

proof fn lemma_chunks_prefix(bytes: Seq<u8>, n: nat)
    requires
        n * FETCH_CHUNK_SIZE <= bytes.len(),
    ensures
        spec_chunks_joined(bytes, n) == bytes.take(n * FETCH_CHUNK_SIZE),
    decreases n,
{
    if n > 0 {
        assert((n - 1) * FETCH_CHUNK_SIZE <= bytes.len()) by (nonlinear_arith)
            requires n * FETCH_CHUNK_SIZE <= bytes.len(), n > 0, FETCH_CHUNK_SIZE == 262144;
        lemma_chunks_prefix(bytes, (n - 1) as nat);
        assert((n - 1) * FETCH_CHUNK_SIZE + FETCH_CHUNK_SIZE == n * FETCH_CHUNK_SIZE) by (nonlinear_arith);
        assert(spec_chunks_joined(bytes, n) =~= bytes.take(n * FETCH_CHUNK_SIZE));
    }
}

/// Law: the served chunks, joined in index order, are exactly the payload.
pub proof fn law_chunks_rejoin(bytes: Seq<u8>)
    ensures
        spec_chunks_joined(bytes, spec_chunk_count(bytes.len())) == bytes,
{
    let len = bytes.len();
    if len == 0 {
        assert(spec_chunk(bytes, 0) =~= Seq::<u8>::empty());
        assert(spec_chunks_joined(bytes, 0) == Seq::<u8>::empty());
        assert(spec_chunks_joined(bytes, 1) =~= bytes);
    } else {
        let c = spec_chunk_count(len);
        assert(c >= 1 && (c - 1) * FETCH_CHUNK_SIZE < len && len <= c * FETCH_CHUNK_SIZE) by (nonlinear_arith)
            requires len > 0, c == ((len + FETCH_CHUNK_SIZE - 1) / FETCH_CHUNK_SIZE as int) as nat, FETCH_CHUNK_SIZE == 262144;
        lemma_chunks_prefix(bytes, (c - 1) as nat);
        assert((c - 1) * FETCH_CHUNK_SIZE + FETCH_CHUNK_SIZE == c * FETCH_CHUNK_SIZE) by (nonlinear_arith);
        assert(spec_chunks_joined(bytes, c) =~= bytes);
    }
}

} // verus!
