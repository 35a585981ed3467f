//! Long-term node identity: an Ed25519 keypair (through `ed25519-dalek`).
//!
//! The identity file holds the raw 32-byte secret followed by the 32-byte
//! public key; only the secret is read back.
use vstd::prelude::*;
use crate::digest::spec_blake3;
use crate::node::NodeId;

verus! {

/// Length of an Ed25519 secret key.
pub const SECRET_KEY_LENGTH: usize = 32;

/// The Ed25519 public key that belongs to a 32-byte secret key, as
/// `ed25519_dalek` derives it.
pub uninterp spec fn spec_public_key(secret: Seq<u8>) -> Seq<u8>;

/// The Ed25519 signature of `msg` under a 32-byte secret key, as
/// `ed25519_dalek` computes it (Ed25519 signing is deterministic).
pub uninterp spec fn spec_signature(secret: Seq<u8>, msg: Seq<u8>) -> Seq<u8>;

/// Whether `ed25519_dalek` accepts `sig` as a signature of `msg` under the
/// public key `pubkey` (a key that does not decode counts as a rejection).
pub uninterp spec fn spec_verifies(pubkey: Seq<u8>, msg: Seq<u8>, sig: Seq<u8>) -> bool;

/// `SigningKey::generate(&mut OsRng)`: a fresh random secret key. Nothing
/// is claimed about the bytes.
#[verifier::external_body]
fn random_secret() -> [u8; 32] {
    ed25519_dalek::SigningKey::generate(&mut rand::rngs::OsRng).to_bytes()
}

/// `SigningKey::from_bytes(secret).verifying_key().to_bytes()`: the public
/// key of a secret key, named by [`spec_public_key`].
#[verifier::external_body]
fn public_key_of(secret: &[u8; 32]) -> (pk: [u8; 32])
    ensures
        pk@ == spec_public_key(secret@),
{
    ed25519_dalek::SigningKey::from_bytes(secret).verifying_key().to_bytes()
}

/// `Signer::sign` of a `SigningKey` built from `secret`: the signature is
/// named by [`spec_signature`], and (Ed25519 correctness) it verifies under
/// the matching public key.
#[verifier::external_body]
fn sign_with(secret: &[u8; 32], msg: &[u8]) -> (sig: [u8; 64])
    ensures
        sig@ == spec_signature(secret@, msg@),
        spec_verifies(spec_public_key(secret@), msg@, sig@),
{
    ed25519_dalek::Signer::sign(&ed25519_dalek::SigningKey::from_bytes(secret), msg).to_bytes()
}

/// `VerifyingKey::from_bytes(pubkey)` followed by `Verifier::verify`:
/// `true` iff both succeed, as named by [`spec_verifies`].
#[verifier::external_body]
fn verify_with(pubkey: &[u8; 32], msg: &[u8], sig: &[u8; 64]) -> (ok: bool)
    ensures
        ok == spec_verifies(pubkey@, msg@, sig@),
{
    match ed25519_dalek::VerifyingKey::from_bytes(pubkey) {
        Ok(vk) => ed25519_dalek::Verifier::verify(&vk, msg, &ed25519_dalek::Signature::from_bytes(sig)).is_ok(),
        Err(_) => false,
    }
}

/// Why an identity could not be read or a signature was refused.
#[derive(Clone, Copy, Debug, PartialEq, Eq)]
pub enum IdentityError {
    /// The identity file holds fewer than 32 bytes.
    FileTooShort { len: usize },
    /// The signature does not verify under the public key.
    BadSignature,
}

/// Long-term Ed25519 keypair representing a node.
#[derive(Clone)]
pub struct Identity {
    secret: [u8; 32],
}

impl View for Identity {
    type V = Seq<u8>;

    /// The secret key bytes.
    closed spec fn view(&self) -> Seq<u8> {
        self.secret@
    }
}

/// The identity file contents for a secret: the secret, then its public key.
pub open spec fn spec_identity_file(secret: Seq<u8>) -> Seq<u8> {
    secret + spec_public_key(secret)
}

impl Identity {
    /// A brand-new random identity; the caller persists it.
    pub fn generate() -> (id: Identity)
        ensures
            id@.len() == 32,
    {
        Identity { secret: random_secret() }
    }

    /// The identity with the given secret key.
    pub fn from_secret(secret: [u8; 32]) -> (id: Identity)
        ensures
            id@ == secret@,
    {
        Identity { secret }
    }

    /// Read an identity from the contents of an identity file: its first 32
    /// bytes are the secret key; fewer bytes are an error.
    pub fn from_file_bytes(bytes: &[u8]) -> (r: Result<Identity, IdentityError>)
        ensures
            bytes@.len() < SECRET_KEY_LENGTH ==> r == Err::<Identity, IdentityError>(IdentityError::FileTooShort { len: bytes@.len() as usize }),
            bytes@.len() >= SECRET_KEY_LENGTH ==> (r matches Ok(id) && id@ == bytes@.take(32)),
    {
        if bytes.len() < SECRET_KEY_LENGTH {
            return Err(IdentityError::FileTooShort { len: bytes.len() });
        }
        let mut secret = [0u8; 32];
        let mut i: usize = 0;
        while i < 32
            invariant
                0 <= i <= 32,
                bytes@.len() >= 32,
                forall|j: int| 0 <= j < i ==> secret@[j] == bytes@[j],
            decreases 32 - i,
        {
            secret[i] = bytes[i];
            i = i + 1;
        }
        assert(secret@ =~= bytes@.take(32));
        Ok(Identity { secret })
    }

    /// Contents of the identity file: 32-byte secret then 32-byte public key.
    pub fn to_file_bytes(&self) -> (b: Vec<u8>)
        ensures
            b@ == spec_identity_file(self@),
            b@.len() == 64,
    {
        let pk = public_key_of(&self.secret);
        let mut b: Vec<u8> = Vec::with_capacity(64);
        b.extend_from_slice(self.secret.as_slice());
        b.extend_from_slice(pk.as_slice());
        assert(b@ =~= spec_identity_file(self@));
        b
    }

    /// Public key bytes.
    pub fn pubkey(&self) -> (pk: [u8; 32])
        ensures
            pk@ == spec_public_key(self@),
    {
        public_key_of(&self.secret)
    }

    /// Node id derived from the public key.
    pub fn node_id(&self) -> (id: NodeId)
        ensures
            id@ == spec_blake3(spec_public_key(self@)).take(16),
    {
        let pk = self.pubkey();
        NodeId::from_pubkey(&pk)
    }

    /// Sign arbitrary bytes (typically a TLS exporter binding).
    pub fn sign(&self, message: &[u8]) -> (sig: [u8; 64])
        ensures
            sig@ == spec_signature(self@, message@),
            spec_verifies(spec_public_key(self@), message@, sig@),
    {
        sign_with(&self.secret, message)
    }
}

/// Verify an Ed25519 signature.
pub fn verify_signature(pubkey: &[u8; 32], message: &[u8], sig: &[u8; 64]) -> (r: Result<(), IdentityError>)
    ensures
        r is Ok <==> spec_verifies(pubkey@, message@, sig@),
        r is Err ==> r == Err::<(), IdentityError>(IdentityError::BadSignature),
{
    if verify_with(pubkey, message, sig) {
        Ok(())
    } else {
        Err(IdentityError::BadSignature)
    }
}

/// Law: reading back the identity file of an identity gives the same
/// secret, hence the same public key and node id.
pub proof fn law_file_round_trip(secret: Seq<u8>)
    requires
        secret.len() == 32,
    ensures
        spec_identity_file(secret).take(32) == secret,
        spec_identity_file(secret).len() >= SECRET_KEY_LENGTH ==> spec_public_key(spec_identity_file(secret).take(32)) == spec_public_key(secret),
{
    assert(spec_identity_file(secret).take(32) =~= secret);
}

} // verus!
