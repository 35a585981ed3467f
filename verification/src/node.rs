//! Node identity and protocol versioning.
use vstd::prelude::*;
use crate::digest::{blake3_hash, spec_blake3};
use crate::hexcodec::{hex_encode, spec_hex_encode};

verus! {

/// Stable opaque identifier for a node (16 bytes).
#[derive(Clone, Copy, Debug, Hash)]
pub struct NodeId(pub [u8; 16]);

impl View for NodeId {
    type V = Seq<u8>;

    open spec fn view(&self) -> Seq<u8> {
        self.0@
    }
}

/// Byte-wise equality of two 16-byte ids.
pub fn ids_equal(a: &NodeId, b: &NodeId) -> (r: bool)
    ensures
        r == (a@ == b@),
{
    let mut i: usize = 0;
    while i < 16
        invariant
            0 <= i <= 16,
            forall|j: int| 0 <= j < i ==> a.0@[j] == b.0@[j],
        decreases 16 - i,
    {
        if a.0[i] != b.0[i] {
            return false;
        }
        i = i + 1;
    }
    assert(a@ =~= b@);
    true
}

impl NodeId {
    /// Hash a 32-byte Ed25519 public key down to a 16-byte node id: the
    /// first 16 bytes of its BLAKE3 hash.
    pub fn from_pubkey(pubkey: &[u8; 32]) -> (id: NodeId)
        ensures
            id@ == spec_blake3(pubkey@).take(16),
    {
        let h = blake3_hash(pubkey.as_slice());
        let mut out = [0u8; 16];
        let mut i: usize = 0;
        while i < 16
            invariant
                0 <= i <= 16,
                h@.len() == 32,
                h@ == spec_blake3(pubkey@),
                forall|j: int| 0 <= j < i ==> out@[j] == h@[j],
            decreases 16 - i,
        {
            out[i] = h[i];
            i = i + 1;
        }
        let id = NodeId(out);
        assert(id@ =~= spec_blake3(pubkey@).take(16));
        id
    }

    /// Lowercase hex representation (32 characters).
    pub fn to_hex(&self) -> (s: String)
        ensures
            s@ == spec_hex_encode(self@),
    {
        hex_encode(self.0.as_slice())
    }
}

impl PartialEq for NodeId {
    fn eq(&self, other: &Self) -> (r: bool) {
        ids_equal(self, other)
    }
}

impl vstd::std_specs::cmp::PartialEqSpecImpl for NodeId {
    open spec fn obeys_eq_spec() -> bool {
        true
    }

    open spec fn eq_spec(&self, other: &Self) -> bool {
        self@ == other@
    }
}

impl Eq for NodeId {}

/// Wire-protocol version.
#[derive(Clone, Copy, Debug, PartialEq, Eq, PartialOrd, Ord, Hash, Structural)]
pub struct ProtocolVersion(pub u16);

/// Initial protocol version.
pub fn protocol_v0() -> (v: ProtocolVersion)
    ensures v.0 == 0,
{
    ProtocolVersion(0)
}

} // verus!
