use vstd::prelude::*;
use crate::text::push_char;

verus! {

/// The value of a hexadecimal digit (`0-9`, `a-f`, `A-F`), if `c` is one.
pub open spec fn hex_digit_value(c: char) -> Option<u8> {
    let v = c as u32;
    if 48 <= v <= 57 {
        Some((v - 48) as u8)
    } else if 65 <= v <= 70 {
        Some((v - 55) as u8)
    } else if 97 <= v <= 102 {
        Some((v - 87) as u8)
    } else {
        None
    }
}

/// The bytes that a hexadecimal text stands for, two digits per byte, the
/// high nibble first; `None` when the text has an odd length or holds a
/// character that is not a hexadecimal digit.
pub open spec fn hex_decoded(s: Seq<char>) -> Option<Seq<u8>>
    decreases s.len(),
{
    if s.len() == 0 {
        Some(Seq::empty())
    } else if s.len() == 1 {
        None
    } else {
        match (hex_digit_value(s[0]), hex_digit_value(s[1]), hex_decoded(s.skip(2))) {
            (Some(hi), Some(lo), Some(rest)) => Some(seq![(hi * 16 + lo) as u8] + rest),
            _ => None,
        }
    }
}

/// The lowercase hexadecimal digit for a nibble (`n < 16`).
pub open spec fn lower_hex_digit(n: u8) -> char {
    if n < 10 {
        ((48 + n) as u32) as char
    } else {
        ((87 + n) as u32) as char
    }
}

/// The lowercase hexadecimal text of a byte sequence, two digits per byte,
/// the high nibble first.
pub open spec fn lower_hex(b: Seq<u8>) -> Seq<char>
    decreases b.len(),
{
    if b.len() == 0 {
        Seq::empty()
    } else {
        seq![lower_hex_digit(b[0] / 16), lower_hex_digit(b[0] % 16)] + lower_hex(b.skip(1))
    }
}

/// Decodes hexadecimal text into bytes.
///
/// Trusted: calls `hex::decode` on the bytes of `s`. It fails on an odd
/// length and on any byte that is not `0-9`, `a-f` or `A-F`; otherwise each
/// pair of digits gives one byte, high nibble first. A character outside
/// ASCII is never a digit, so the text's characters decide the outcome.
#[verifier::external_body]
pub(crate) fn decode_hex(s: &str) -> (r: Option<Vec<u8>>)
    ensures
        match r {
            Some(bytes) => hex_decoded(s@) == Some(bytes@),
            None => hex_decoded(s@) is None,
        },
{
    hex::decode(s).ok()
}

/// Appends the lowercase hexadecimal text of `bytes` to `out`.
pub fn push_lower_hex(out: &mut String, bytes: &[u8])
    ensures
        final(out)@ == old(out)@ + lower_hex(bytes@),
{
    let n = bytes.len();
    let mut i: usize = 0;
    assert(bytes@.skip(0) =~= bytes@);
    while i < n
        invariant
            n == bytes@.len(),
            i <= n,
            out@ + lower_hex(bytes@.skip(i as int)) == old(out)@ + lower_hex(bytes@),
        decreases n - i,
    {
        let b = bytes[i];
        let hi = b / 16;
        let lo = b % 16;
        let hc: char = if hi < 10 { (48u8 + hi) as char } else { (87u8 + hi) as char };
        let lc: char = if lo < 10 { (48u8 + lo) as char } else { (87u8 + lo) as char };
        let ghost before = out@;
        push_char(out, hc);
        push_char(out, lc);
        proof {
            let rest = bytes@.skip(i as int);
            assert(rest[0] == b);
            assert(rest.skip(1) =~= bytes@.skip(i + 1));
            assert(lower_hex(rest) == seq![hc, lc] + lower_hex(bytes@.skip(i + 1)));
            assert(out@ =~= before + seq![hc, lc]);
        }
        i = i + 1;
    }
    assert(bytes@.skip(n as int) =~= Seq::<u8>::empty());
}

/// Decoding the lowercase hexadecimal text of any bytes gives those bytes
/// back.
pub proof fn lemma_decode_lower_hex(b: Seq<u8>)
    ensures
        hex_decoded(lower_hex(b)) == Some(b),
    decreases b.len(),
{
    if b.len() == 0 {
    } else {
        let s = lower_hex(b);
        let hi = b[0] / 16;
        let lo = b[0] % 16;
        assert(hex_digit_value(lower_hex_digit(hi)) == Some(hi));
        assert(hex_digit_value(lower_hex_digit(lo)) == Some(lo));
        lemma_decode_lower_hex(b.skip(1));
        assert(s.skip(2) =~= lower_hex(b.skip(1)));
        assert(seq![(hi * 16 + lo) as u8] + b.skip(1) =~= b);
    }
}

/// Decoded hexadecimal text has one byte for every two digits.
pub proof fn lemma_hex_decoded_len(s: Seq<char>)
    ensures
        hex_decoded(s) matches Some(b) ==> 2 * b.len() == s.len(),
    decreases s.len(),
{
    if s.len() >= 2 {
        lemma_hex_decoded_len(s.skip(2));
    }
}

} // verus!
