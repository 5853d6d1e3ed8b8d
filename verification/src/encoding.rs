//! Text encodings used on the wire: lowercase hexadecimal (the `hex` crate)
//! and unsigned decimal digits.

use vstd::prelude::*;

use crate::aead::opt_view;

verus! {

/// The lowercase hexadecimal digit of `n` (`n < 16`).
pub open spec fn hex_digit(n: int) -> char {
    if n < 10 {
        (48 + n) as char
    } else {
        (87 + n) as char
    }
}

/// The value of a hexadecimal digit (either case), or `None`.
pub open spec fn hex_value(c: char) -> Option<int> {
    let v = c as int;
    if 48 <= v <= 57 {
        Some(v - 48)
    } else if 97 <= v <= 102 {
        Some(v - 87)
    } else if 65 <= v <= 70 {
        Some(v - 55)
    } else {
        None
    }
}

/// Lowercase hexadecimal of `bytes`: two digits per byte, high nibble first.
pub open spec fn hex_encode_spec(bytes: Seq<u8>) -> Seq<char>
    decreases bytes.len(),
{
    if bytes.len() == 0 {
        Seq::empty()
    } else {
        seq![hex_digit((bytes[0] / 16) as int), hex_digit((bytes[0] % 16) as int)] + hex_encode_spec(
            bytes.subrange(1, bytes.len() as int),
        )
    }
}

/// The bytes a hexadecimal string denotes (digits of either case, in pairs),
/// or `None` for an odd length or a character that is not a hex digit.
pub open spec fn hex_decode_spec(s: Seq<char>) -> Option<Seq<u8>>
    decreases s.len(),
{
    if s.len() == 0 {
        Some(Seq::empty())
    } else if s.len() == 1 {
        None
    } else {
        match (hex_value(s[0]), hex_value(s[1]), hex_decode_spec(s.subrange(2, s.len() as int))) {
            (Some(h), Some(l), Some(rest)) => Some(seq![(h * 16 + l) as u8] + rest),
            _ => None,
        }
    }
}

/// Decoding the hexadecimal of any bytes gives those bytes back.
pub proof fn lemma_hex_roundtrip(bytes: Seq<u8>)
    ensures
        hex_decode_spec(hex_encode_spec(bytes)) == Some(bytes),
    decreases bytes.len(),
{
    if bytes.len() > 0 {
        let rest = bytes.subrange(1, bytes.len() as int);
        lemma_hex_roundtrip(rest);
        let s = hex_encode_spec(bytes);
        let b = bytes[0];
        assert(s[0] == hex_digit((b / 16) as int));
        assert(s[1] == hex_digit((b % 16) as int));
        assert(s.subrange(2, s.len() as int) =~= hex_encode_spec(rest));
        assert(hex_value(hex_digit((b / 16) as int)) == Some((b / 16) as int));
        assert(hex_value(hex_digit((b % 16) as int)) == Some((b % 16) as int));
        assert(((b / 16) * 16 + b % 16) as u8 == b);
        assert(seq![b] + rest =~= bytes);
    }
}

/// `hex::encode`: the lowercase hexadecimal of `data`.
#[verifier::external_body]
pub(crate) fn hex_encode(data: &[u8]) -> (r: String)
    ensures
        r@ == hex_encode_spec(data@),
{
    hex::encode(data)
}

/// `hex::decode`: the bytes `s` denotes, or `None` for odd length or a
/// character that is not a hexadecimal digit (either case is accepted).
#[verifier::external_body]
pub(crate) fn hex_decode(s: &str) -> (r: Option<Vec<u8>>)
    ensures
        opt_view(r) == hex_decode_spec(s@),
{
    hex::decode(s).ok()
}

/// The ASCII decimal digits of `n`, without leading zeros.
pub open spec fn decimal_spec(n: nat) -> Seq<u8>
    decreases n,
{
    if n < 10 {
        seq![(48 + n) as u8]
    } else {
        decimal_spec(n / 10).push((48 + n % 10) as u8)
    }
}

/// Append the ASCII decimal digits of `n` to `out`.
pub fn push_decimal(out: &mut Vec<u8>, n: u64)
    ensures
        final(out)@ == old(out)@ + decimal_spec(n as nat),
    decreases n,
{
    if n >= 10 {
        push_decimal(out, n / 10);
    }
    out.push(48 + (n % 10) as u8);
    proof {
        if n >= 10 {
            assert(old(out)@ + decimal_spec(n as nat) =~= old(out)@ + decimal_spec((n / 10) as nat)
                + seq![(48 + n % 10) as u8]);
        }
    }
}

} // verus!
