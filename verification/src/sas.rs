//! Short Authentication String for first-time pairing.
//!
//! Both sides display the same 6-digit number, derived from the two
//! long-term public keys plus a per-pairing salt (the TLS exporter). The
//! keys are ordered lexicographically first, so both peers hash the same
//! bytes whoever initiated.
use vstd::prelude::*;
use crate::digest::{blake3_hash, spec_blake3};
use crate::text::{decimal_len, push_decimal, spec_decimal};

verus! {

/// How many distinct short authentication strings there are (6 digits).
pub const SAS_MODULUS: u32 = 1_000_000;

/// 6-decimal-digit short authentication string.
#[derive(Clone, Copy, Debug, PartialEq, Eq, Structural)]
pub struct ShortAuthString(pub u32);

/// The domain-separation tag hashed first: the ASCII bytes of
/// `borderless/sas/v0`.
pub open spec fn spec_sas_tag() -> Seq<u8> {
    seq![98u8, 111u8, 114u8, 100u8, 101u8, 114u8, 108u8, 101u8, 115u8, 115u8, 47u8, 115u8, 97u8, 115u8, 47u8, 118u8, 48u8]
}

/// The tag bytes.
fn sas_tag() -> (t: [u8; 17])
    ensures
        t@ == spec_sas_tag(),
{
    let t: [u8; 17] = [98u8, 111u8, 114u8, 100u8, 101u8, 114u8, 108u8, 101u8, 115u8, 115u8, 47u8, 115u8, 97u8, 115u8, 47u8, 118u8, 48u8];
    assert(t@ =~= spec_sas_tag());
    t
}

/// Lexicographic `<=` on byte strings, as Rust orders slices and arrays.
pub open spec fn spec_lex_le(a: Seq<u8>, b: Seq<u8>) -> bool
    decreases a.len(),
{
    if a.len() == 0 {
        true
    } else if b.len() == 0 {
        false
    } else if a[0] != b[0] {
        a[0] < b[0]
    } else {
        spec_lex_le(a.drop_first(), b.drop_first())
    }
}

/// Either of two byte strings is lexicographically at most the other.
pub proof fn lemma_lex_total(a: Seq<u8>, b: Seq<u8>)
    ensures
        spec_lex_le(a, b) || spec_lex_le(b, a),
    decreases a.len(),
{
    if a.len() > 0 && b.len() > 0 && a[0] == b[0] {
        lemma_lex_total(a.drop_first(), b.drop_first());
    }
}

/// Two byte strings each at most the other are equal.
pub proof fn lemma_lex_antisymmetric(a: Seq<u8>, b: Seq<u8>)
    requires
        spec_lex_le(a, b),
        spec_lex_le(b, a),
    ensures
        a == b,
    decreases a.len(),
{
    if a.len() == 0 {
        assert(b.len() == 0);
        assert(a =~= b);
    } else {
        assert(b.len() > 0);
        assert(a[0] == b[0]);
        lemma_lex_antisymmetric(a.drop_first(), b.drop_first());
        assert forall|i: int| 0 <= i < a.len() implies a[i] == b[i] by {
            if i > 0 {
                assert(a[i] == a.drop_first()[i - 1]);
                assert(b[i] == b.drop_first()[i - 1]);
            }
        }
        assert(a =~= b);
    }
}

/// Lexicographic comparison of two byte strings of the same length.
fn lex_le(a: &[u8], b: &[u8]) -> (r: bool)
    requires
        a@.len() == b@.len(),
    ensures
        r == spec_lex_le(a@, b@),
{
    let mut i: usize = 0;
    assert(a@.skip(0) =~= a@);
    assert(b@.skip(0) =~= b@);
    while i < a.len()
        invariant
            0 <= i <= a@.len(),
            a@.len() == b@.len(),
            spec_lex_le(a@, b@) == spec_lex_le(a@.skip(i as int), b@.skip(i as int)),
        decreases a.len() - i,
    {
        let ghost sa = a@.skip(i as int);
        let ghost sb = b@.skip(i as int);
        assert(sa[0] == a@[i as int]);
        assert(sb[0] == b@[i as int]);
        if a[i] != b[i] {
            return a[i] < b[i];
        }
        assert(sa.drop_first() =~= a@.skip(i + 1));
        assert(sb.drop_first() =~= b@.skip(i + 1));
        i = i + 1;
    }
    assert(a@.skip(i as int).len() == 0);
    true
}

/// The first four bytes of a digest read as a big-endian integer.
pub open spec fn spec_be32(d: Seq<u8>) -> int {
    ((d[0] as int * 256 + d[1] as int) * 256 + d[2] as int) * 256 + d[3] as int
}

/// The bytes hashed for a pairing: the tag, the lexicographically smaller
/// key, the larger key, then the salt.
pub open spec fn spec_sas_input(pk_a: Seq<u8>, pk_b: Seq<u8>, salt: Seq<u8>) -> Seq<u8> {
    if spec_lex_le(pk_a, pk_b) {
        spec_sas_tag() + pk_a + pk_b + salt
    } else {
        spec_sas_tag() + pk_b + pk_a + salt
    }
}

/// The short authentication string of a BLAKE3 digest: its first four
/// bytes, big-endian, modulo one million.
pub open spec fn spec_sas_of_digest(d: Seq<u8>) -> int {
    spec_be32(d) % (SAS_MODULUS as int)
}

/// The short authentication string two peers compute.
pub open spec fn spec_sas(pk_a: Seq<u8>, pk_b: Seq<u8>, salt: Seq<u8>) -> int {
    spec_sas_of_digest(spec_blake3(spec_sas_input(pk_a, pk_b, salt)))
}

/// The short authentication string of a digest: its first four bytes,
/// big-endian, modulo one million.
pub fn sas_from_digest(digest: &[u8; 32]) -> (s: ShortAuthString)
    ensures
        s.0 == spec_sas_of_digest(digest@),
        s.0 < SAS_MODULUS,
{
    let d0: u32 = digest[0] as u32;
    let d1: u32 = digest[1] as u32;
    let d2: u32 = digest[2] as u32;
    let d3: u32 = digest[3] as u32;
    let v: u32 = ((d0 * 256 + d1) * 256 + d2) * 256 + d3;
    ShortAuthString(v % SAS_MODULUS)
}

/// Derive the 6-digit short authentication string of two public keys and
/// a binding salt. The keys are ordered lexicographically before hashing.
pub fn sas_digits(pk_a: &[u8; 32], pk_b: &[u8; 32], salt: &[u8]) -> (s: ShortAuthString)
    ensures
        s.0 == spec_sas(pk_a@, pk_b@, salt@),
        s.0 < SAS_MODULUS,
{
    let a_first = lex_le(pk_a.as_slice(), pk_b.as_slice());
    let tag = sas_tag();
    let mut input: Vec<u8> = Vec::new();
    input.extend_from_slice(tag.as_slice());
    if a_first {
        input.extend_from_slice(pk_a.as_slice());
        input.extend_from_slice(pk_b.as_slice());
    } else {
        input.extend_from_slice(pk_b.as_slice());
        input.extend_from_slice(pk_a.as_slice());
    }
    input.extend_from_slice(salt);
    assert(input@ =~= spec_sas_input(pk_a@, pk_b@, salt@));
    let digest = blake3_hash(input.as_slice());
    sas_from_digest(&digest)
}

/// Law: both peers compute the same string, whichever key is named first.
pub proof fn law_sas_symmetric(pk_a: Seq<u8>, pk_b: Seq<u8>, salt: Seq<u8>)
    ensures
        spec_sas(pk_a, pk_b, salt) == spec_sas(pk_b, pk_a, salt),
{
    lemma_lex_total(pk_a, pk_b);
    if spec_lex_le(pk_a, pk_b) && spec_lex_le(pk_b, pk_a) {
        lemma_lex_antisymmetric(pk_a, pk_b);
    }
    assert(spec_sas_input(pk_a, pk_b, salt) =~= spec_sas_input(pk_b, pk_a, salt));
}

/// Decimal text of `n` left-padded with `0` to at least six characters.
pub open spec fn spec_padded6(n: nat) -> Seq<char> {
    let d = spec_decimal(n);
    if d.len() < 6 {
        Seq::new((6 - d.len()) as nat, |i: int| '0') + d
    } else {
        d
    }
}

impl ShortAuthString {
    /// Always renders zero-padded to 6 digits.
    pub fn to_string_padded(&self) -> (s: String)
        ensures
            s@ == spec_padded6(self.0 as nat),
    {
        let len = decimal_len(self.0);
        let mut s = String::new();
        let mut k: usize = len;
        while k < 6
            invariant
                len <= k <= 6 || (len >= 6 && k == len),
                len == spec_decimal(self.0 as nat).len(),
                s@ == Seq::new((k - len) as nat, |i: int| '0'),
            decreases 6 - k,
        {
            proof {
                reveal_strlit("0");
            }
            s.append("0");
            k = k + 1;
            assert(s@ =~= Seq::new((k - len) as nat, |i: int| '0'));
        }
        push_decimal(&mut s, self.0);
        assert(s@ =~= spec_padded6(self.0 as nat));
        s
    }
}

} // verus!
