//! Text as the ledger prints it: UTF-8, surrounding whitespace, prefixes,
//! hexadecimal and decimal digits.

use vstd::prelude::*;
use vstd::string::{StrSliceExecFns, StringExecFns, StringSliceAdditionalSpecFns};
use vstd::utf8::valid_utf8;

verus! {

/// Why a string of hexadecimal digits does not decode.
#[derive(Clone, Copy, Debug, PartialEq, Eq, Structural)]
pub enum HexDefect {
    /// The number of digits is odd.
    OddLength,
    /// The byte at `index` is no hexadecimal digit, and every byte before it
    /// is one.
    InvalidDigit { index: usize },
    /// The digits do not fill the container they are decoded into. Decoding
    /// into a vector never gives this.
    InvalidStringLength,
}

/// Whether a byte is one of `0`-`9`, `a`-`f`, `A`-`F`.
pub open spec fn is_hex_digit(b: u8) -> bool {
    (0x30 <= b <= 0x39) || (0x41 <= b <= 0x46) || (0x61 <= b <= 0x66)
}

/// The number that a hexadecimal digit stands for.
pub open spec fn hex_digit_value(b: u8) -> int {
    if 0x30 <= b <= 0x39 {
        b - 0x30
    } else if 0x41 <= b <= 0x46 {
        b - 0x41 + 10
    } else {
        b - 0x61 + 10
    }
}

/// The index of the first byte from `from` on that is no hexadecimal digit,
/// or the length where there is none.
pub open spec fn first_non_hex(digits: Seq<u8>, from: int) -> int
    decreases digits.len() - from,
{
    if from >= digits.len() {
        digits.len() as int
    } else if !is_hex_digit(digits[from]) {
        from
    } else {
        first_non_hex(digits, from + 1)
    }
}

/// The bytes that pairs of hexadecimal digits stand for.
pub open spec fn hex_bytes(digits: Seq<u8>) -> Seq<u8> {
    Seq::new(
        digits.len() / 2,
        |i: int| (16 * hex_digit_value(digits[2 * i]) + hex_digit_value(digits[2 * i + 1])) as u8,
    )
}

/// What decoding a string of hexadecimal digits gives.
pub open spec fn hex_decoded(digits: Seq<u8>) -> Result<Seq<u8>, HexDefect> {
    if digits.len() % 2 != 0 {
        Err(HexDefect::OddLength)
    } else if first_non_hex(digits, 0) < digits.len() {
        Err(HexDefect::InvalidDigit { index: first_non_hex(digits, 0) as usize })
    } else {
        Ok(hex_bytes(digits))
    }
}

/// `hex::decode` on a byte string. Claimed of it: an odd number of bytes is
/// refused as such; otherwise the first byte that is no hexadecimal digit is
/// reported with its index; otherwise each pair of digits, upper or lower
/// case, gives one byte, the first digit being the high half.
#[verifier::external_body]
pub(crate) fn hex_decode(digits: &[u8]) -> (r: Result<Vec<u8>, HexDefect>)
    ensures
        match r {
            Ok(bytes) => hex_decoded(digits@) == Ok::<Seq<u8>, HexDefect>(bytes@),
            Err(e) => hex_decoded(digits@) == Err::<Seq<u8>, HexDefect>(e),
        },
{
    match hex::decode(digits) {
        Ok(bytes) => Ok(bytes),
        Err(hex::FromHexError::OddLength) => Err(HexDefect::OddLength),
        Err(hex::FromHexError::InvalidHexCharacter { c: _, index }) => Err(
            HexDefect::InvalidDigit { index },
        ),
        Err(hex::FromHexError::InvalidStringLength) => Err(HexDefect::InvalidStringLength),
    }
}

/// `std::str::from_utf8`. Claimed of it: it succeeds exactly on valid UTF-8,
/// and the string it gives has the bytes it was given.
#[verifier::external_body]
pub(crate) fn utf8_text(bytes: &[u8]) -> (r: Option<&str>)
    ensures
        r is Some <==> valid_utf8(bytes@),
        r is Some ==> r.unwrap().spec_bytes() == bytes@,
{
    std::str::from_utf8(bytes).ok()
}

/// A text without the whitespace at its two ends, as `str::trim` removes it.
pub uninterp spec fn trimmed(text: Seq<char>) -> Seq<char>;

/// `str::trim`. Its result is named, not stated: which characters count as
/// whitespace is Unicode's table.
#[verifier::external_body]
pub(crate) fn trim(text: &str) -> (r: &str)
    ensures
        r@ == trimmed(text@),
{
    text.trim()
}

/// What follows `prefix` in `text`, where `text` begins with it.
pub fn strip_prefix<'a>(text: &'a str, prefix: &str) -> (r: Option<&'a str>)
    ensures
        match r {
            Some(rest) => prefix@.is_prefix_of(text@) && rest@ == text@.skip(prefix@.len() as int),
            None => !prefix@.is_prefix_of(text@),
        },
{
    let n = text.unicode_len();
    let m = prefix.unicode_len();
    if m > n {
        return None;
    }
    let mut i: usize = 0;
    while i < m
        invariant
            0 <= i <= m <= n,
            n == text@.len(),
            m == prefix@.len(),
            forall|k: int| 0 <= k < i ==> text@[k] == prefix@[k],
        decreases m - i,
    {
        if text.get_char(i) != prefix.get_char(i) {
            proof {
                assert(text@.subrange(0, m as int)[i as int] != prefix@[i as int]);
            }
            return None;
        }
        i += 1;
    }
    let rest = text.substring_char(m, n);
    proof {
        assert(prefix@ =~= text@.subrange(0, m as int));
        assert(rest@ =~= text@.skip(m as int));
    }
    Some(rest)
}

} // verus!
