//! Hexadecimal text encoding of bytes (through the `hex` crate).
use vstd::prelude::*;

verus! {

/// Lowercase hex digit for a nibble.
pub open spec fn spec_hex_digit(n: int) -> char {
    if 0 <= n < 10 {
        (48 + n) as char
    } else {
        (97 + n - 10) as char
    }
}

/// Value of a hex digit (either case), if `c` is one.
pub open spec fn spec_hex_value(c: char) -> Option<int> {
    let v = c as int;
    if 48 <= v <= 57 {
        Some(v - 48)
    } else if 97 <= v <= 102 {
        Some(v - 97 + 10)
    } else if 65 <= v <= 70 {
        Some(v - 65 + 10)
    } else {
        None
    }
}

/// Lowercase hex encoding: two digits per byte, high nibble first.
pub open spec fn spec_hex_encode(b: Seq<u8>) -> Seq<char> {
    Seq::new(
        2 * b.len(),
        |i: int| if i % 2 == 0 { spec_hex_digit(b[i / 2] as int / 16) } else { spec_hex_digit(b[i / 2] as int % 16) },
    )
}

/// Hex decoding: defined when the text has an even number of hex digits
/// (either case); each pair gives one byte, high nibble first.
pub open spec fn spec_hex_decode(s: Seq<char>) -> Option<Seq<u8>> {
    if s.len() % 2 == 0 && forall|i: int| 0 <= i < s.len() ==> #[trigger] spec_hex_value(s[i]) is Some {
        Some(
            Seq::new(
                s.len() / 2,
                |i: int| (spec_hex_value(s[2 * i])->0 * 16 + spec_hex_value(s[2 * i + 1])->0) as u8,
            ),
        )
    } else {
        None
    }
}

/// `hex::encode`: lowercase hex text of `data`. The contract states the
/// documented format: two lowercase digits per byte, high nibble first.
#[verifier::external_body]
pub(crate) fn hex_encode(data: &[u8]) -> (s: String)
    ensures
        s@ == spec_hex_encode(data@),
{
    hex::encode(data)
}

/// `hex::decode`: the bytes of a hex text, `None` on odd length or a
/// character that is not a hex digit (the crate's error is dropped). The
/// contract states the documented format: digits of either case, two per
/// byte, high nibble first.
#[verifier::external_body]
pub(crate) fn hex_decode(s: &str) -> (r: Option<Vec<u8>>)
    ensures
        r matches Some(v) ==> spec_hex_decode(s@) == Some(v@),
        r is None ==> spec_hex_decode(s@) is None,
{
    match hex::decode(s) {
        Ok(v) => Some(v),
        Err(_) => None,
    }
}

/// Law: decoding the hex encoding of any bytes gives the bytes back.
pub proof fn law_hex_round_trip(b: Seq<u8>)
    ensures
        spec_hex_decode(spec_hex_encode(b)) == Some(b),
{
    let s = spec_hex_encode(b);
    assert forall|i: int| 0 <= i < s.len() implies #[trigger] spec_hex_value(s[i]) is Some by {
        let n: int = if i % 2 == 0 { b[i / 2] as int / 16 } else { b[i / 2] as int % 16 };
        assert(0 <= n < 16);
        assert(spec_hex_value(spec_hex_digit(n)) == Some(n));
    }
    let d = spec_hex_decode(s)->0;
    assert forall|i: int| 0 <= i < b.len() implies d[i] == b[i] by {
        let hi: int = b[i] as int / 16;
        let lo: int = b[i] as int % 16;
        assert(s[2 * i] == spec_hex_digit(hi));
        assert((2 * i + 1) / 2 == i);
        assert(s[2 * i + 1] == spec_hex_digit(lo));
        assert(spec_hex_value(spec_hex_digit(hi)) == Some(hi));
        assert(spec_hex_value(spec_hex_digit(lo)) == Some(lo));
    }
    assert(d =~= b);
}

} // verus!
