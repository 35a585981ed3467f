//! Application-layer authentication of a TLS session.
//!
//! After the TLS handshake both sides exchange a [`SignedHello`] whose
//! Ed25519 signature covers `borderless/hello/v0 || tls_exporter`. This
//! binds the long-term identity to the live session: a man in the middle
//! of the TLS layer would still need the peer's private key. The peer's
//! Hello is then checked against an optional pinned key and the
//! trust-on-first-use [`PeerStore`].
use vstd::prelude::*;
use crate::digest::spec_blake3;
use crate::digest::bytes32_equal;
use crate::identity::{spec_public_key, spec_signature, spec_verifies, verify_signature, Identity};
use crate::node::{protocol_v0, NodeId, ProtocolVersion};
use crate::peer_store::{spec_new_peer, KnownPeerModel, PeerStore};

verus! {

/// The domain-separation label mixed into the Hello signature: the ASCII
/// bytes of `borderless/hello/v0`.
pub open spec fn spec_hello_bind_label() -> Seq<u8> {
    seq![98u8, 111u8, 114u8, 100u8, 101u8, 114u8, 108u8, 101u8, 115u8, 115u8, 47u8, 104u8, 101u8, 108u8, 108u8, 111u8, 47u8, 118u8, 48u8]
}

/// The Hello domain-separation label (also the TLS exporter label).
pub fn hello_bind_label() -> (l: [u8; 19])
    ensures
        l@ == spec_hello_bind_label(),
{
    let l: [u8; 19] = [98u8, 111u8, 114u8, 100u8, 101u8, 114u8, 108u8, 101u8, 115u8, 115u8, 47u8, 104u8, 101u8, 108u8, 108u8, 111u8, 47u8, 118u8, 48u8];
    assert(l@ =~= spec_hello_bind_label());
    l
}

/// The bytes a Hello signature covers: the label, then the exporter.
pub open spec fn spec_hello_binding(exporter: Seq<u8>) -> Seq<u8> {
    spec_hello_bind_label() + exporter
}

/// The bytes a Hello signature covers for a session's exporter material.
pub fn hello_binding(exporter: &[u8; 32]) -> (b: Vec<u8>)
    ensures
        b@ == spec_hello_binding(exporter@),
{
    let label = hello_bind_label();
    let mut b: Vec<u8> = Vec::with_capacity(51);
    b.extend_from_slice(label.as_slice());
    b.extend_from_slice(exporter.as_slice());
    assert(b@ =~= spec_hello_binding(exporter@));
    b
}

/// The TLS server-certificate policy of spokes: accept any well-formed
/// certificate. TLS here provides confidentiality and the exporter that
/// Hellos are bound to; whether to talk to the peer is decided by
/// [`check_peer_hello`].
pub struct AcceptAnyServerCert;

/// Application-layer Hello, signed by the long-term Ed25519 key.
#[derive(Clone, Debug)]
pub struct SignedHello {
    /// Long-term public key of the sender.
    pub pubkey: [u8; 32],
    /// Sender's display name.
    pub name: String,
    /// Highest protocol version we can speak.
    pub max_protocol: ProtocolVersion,
    /// Ed25519 signature (64 bytes) over the label and the TLS exporter.
    pub signature: Vec<u8>,
}

/// Our Hello for a session: our public key and name, protocol version 0,
/// and our signature over the session binding.
pub fn make_signed_hello(identity: &Identity, name: &str, exporter: &[u8; 32]) -> (h: SignedHello)
    ensures
        h.pubkey@ == spec_public_key(identity@),
        h.name@ == name@,
        h.max_protocol.0 == 0,
        h.signature@ == spec_signature(identity@, spec_hello_binding(exporter@)),
        h.signature@.len() == 64,
        spec_hello_authentic(h, exporter@, None),
        spec_hello_authentic(h, exporter@, Some(h.pubkey)),
{
    let binding = hello_binding(exporter);
    let sig = identity.sign(binding.as_slice());
    let mut signature: Vec<u8> = Vec::with_capacity(64);
    signature.extend_from_slice(sig.as_slice());
    assert(signature@ =~= sig@);
    SignedHello { pubkey: identity.pubkey(), name: name.to_owned(), max_protocol: protocol_v0(), signature }
}

/// Why a peer's Hello was refused.
#[derive(Clone, Debug)]
pub enum HandshakeError {
    /// The signature is not 64 bytes long.
    BadSignatureLength { len: usize },
    /// The signature does not verify over this session's binding.
    BadSignature,
    /// A specific peer was expected and another one answered.
    UnexpectedPeer { expected: [u8; 32], presented: [u8; 32] },
    /// The peer is not paired and new peers are not accepted.
    UnknownPeer { node_id: NodeId, name: String },
}

/// A peer whose Hello was accepted.
#[derive(Clone, Debug)]
pub struct VerifiedPeer {
    /// Verified peer public key.
    pub pubkey: [u8; 32],
    /// Peer name (from its Hello).
    pub name: String,
    /// Peer node id, derived from its key.
    pub node_id: NodeId,
    /// True when this session paired the peer for the first time.
    pub newly_paired: bool,
}

/// Whether a Hello's signature is a valid signature over the binding.
pub open spec fn spec_hello_signed(h: SignedHello, exporter: Seq<u8>) -> bool {
    h.signature@.len() == 64 && spec_verifies(h.pubkey@, spec_hello_binding(exporter), h.signature@)
}

/// Whether a Hello passes every check before the peer store: a 64-byte
/// signature that verifies, from the pinned key if one is given.
pub open spec fn spec_hello_authentic(h: SignedHello, exporter: Seq<u8>, expected: Option<[u8; 32]>) -> bool {
    &&& spec_hello_signed(h, exporter)
    &&& (expected matches Some(e) ==> e@ == h.pubkey@)
}

/// Check a peer's Hello for this session (exporter material `exporter`):
/// the signature must be 64 bytes and verify over the binding; if
/// `expected` is set the peer must present that key; an unknown peer is
/// refused unless `accept_new`, in which case it is recorded in `store`
/// as paired at `now` (trust on first use).
pub fn check_peer_hello(
    hello: &SignedHello,
    exporter: &[u8; 32],
    expected: Option<[u8; 32]>,
    store: &mut PeerStore,
    accept_new: bool,
    now: u64,
) -> (r: Result<VerifiedPeer, HandshakeError>)
    ensures
        hello.signature@.len() != 64 ==> (r matches Err(HandshakeError::BadSignatureLength { len }) && len == hello.signature@.len()),
        hello.signature@.len() == 64 && !spec_verifies(hello.pubkey@, spec_hello_binding(exporter@), hello.signature@) ==> r matches Err(HandshakeError::BadSignature),
        spec_hello_signed(*hello, exporter@) && expected is Some && expected->0@ != hello.pubkey@ ==> (r matches Err(HandshakeError::UnexpectedPeer { expected: e, presented }) && Some(e) == expected && presented == hello.pubkey),
        spec_hello_authentic(*hello, exporter@, expected) && !old(store)@.dom().contains(hello.pubkey@) && !accept_new ==> (r matches Err(HandshakeError::UnknownPeer { node_id, name }) && node_id@ == spec_blake3(hello.pubkey@).take(16) && name@ == hello.name@),
        r is Err ==> final(store)@ == old(store)@,
        r is Ok <==> (spec_hello_authentic(*hello, exporter@, expected) && (old(store)@.dom().contains(hello.pubkey@) || accept_new)),
        r matches Ok(p) ==> {
            &&& p.pubkey == hello.pubkey
            &&& p.name@ == hello.name@
            &&& p.node_id@ == spec_blake3(hello.pubkey@).take(16)
            &&& p.newly_paired == !old(store)@.dom().contains(hello.pubkey@)
            &&& final(store)@ == if p.newly_paired {
                old(store)@.insert(hello.pubkey@, spec_new_peer(hello.pubkey@, hello.name@, now))
            } else {
                old(store)@
            }
        },
{
    if hello.signature.len() != 64 {
        return Err(HandshakeError::BadSignatureLength { len: hello.signature.len() });
    }
    let mut sig = [0u8; 64];
    let mut i: usize = 0;
    while i < 64
        invariant
            0 <= i <= 64,
            hello.signature@.len() == 64,
            forall|j: int| 0 <= j < i ==> sig@[j] == hello.signature@[j],
        decreases 64 - i,
    {
        sig[i] = hello.signature[i];
        i = i + 1;
    }
    assert(sig@ =~= hello.signature@);
    let binding = hello_binding(exporter);
    if verify_signature(&hello.pubkey, binding.as_slice(), &sig).is_err() {
        return Err(HandshakeError::BadSignature);
    }
    match expected {
        Some(e) => {
            if !bytes32_equal(&e, &hello.pubkey) {
                return Err(HandshakeError::UnexpectedPeer { expected: e, presented: hello.pubkey });
            }
        },
        None => {},
    }
    let node_id = NodeId::from_pubkey(&hello.pubkey);
    let known = store.is_known(&hello.pubkey);
    if !known {
        if !accept_new {
            return Err(HandshakeError::UnknownPeer { node_id, name: hello.name.clone() });
        }
        store.insert(hello.pubkey, hello.name.clone(), now);
    }
    Ok(VerifiedPeer { pubkey: hello.pubkey, name: hello.name.clone(), node_id, newly_paired: !known })
}

/// Seconds since the Unix epoch (0 if the clock reads earlier than it).
#[verifier::external_body]
fn unix_secs_now() -> u64 {
    match std::time::SystemTime::now().duration_since(std::time::UNIX_EPOCH) {
        Ok(d) => d.as_secs(),
        Err(_) => 0,
    }
}

/// [`check_peer_hello`] with the pairing time read from the wall clock.
/// Whatever the clock reads, the verdict is the same; only the recorded
/// pairing time of a newly paired peer depends on it.
pub fn accept_peer_hello(
    hello: &SignedHello,
    exporter: &[u8; 32],
    expected: Option<[u8; 32]>,
    store: &mut PeerStore,
    accept_new: bool,
) -> (r: Result<VerifiedPeer, HandshakeError>)
    ensures
        r is Ok <==> (spec_hello_authentic(*hello, exporter@, expected) && (old(store)@.dom().contains(hello.pubkey@) || accept_new)),
        r is Err ==> final(store)@ == old(store)@,
        r matches Ok(p) ==> {
            &&& p.pubkey == hello.pubkey
            &&& p.name@ == hello.name@
            &&& p.node_id@ == spec_blake3(hello.pubkey@).take(16)
            &&& p.newly_paired == !old(store)@.dom().contains(hello.pubkey@)
            &&& (!p.newly_paired ==> final(store)@ == old(store)@)
            &&& (p.newly_paired ==> exists|t: u64| final(store)@ == old(store)@.insert(hello.pubkey@, #[trigger] spec_new_peer(hello.pubkey@, hello.name@, t)))
        },
{
    let now = unix_secs_now();
    let r = check_peer_hello(hello, exporter, expected, store, accept_new, now);
    proof {
        match &r {
            Ok(p) => {
                if p.newly_paired {
                    assert(store@ == old(store)@.insert(hello.pubkey@, spec_new_peer(hello.pubkey@, hello.name@, now)));
                }
            },
            Err(_) => {},
        }
    }
    r
}

} // verus!
