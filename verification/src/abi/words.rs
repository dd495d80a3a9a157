//! The 32-byte words that every ABI encoding is made of.

use vstd::prelude::*;
use crate::uint256::{
    be_bytes, be_value, lemma_be_bytes_value, lemma_be_value_bytes, lemma_prefix_le, pow256,
};

verus! {

/// What a decoder found wrong with a buffer.
#[derive(Clone, Copy, Debug, PartialEq, Eq, Structural)]
pub enum AbiErrorKind {
    /// The buffer ends before the words that its head or a count announces.
    Truncated,
    /// The buffer goes on after the encoding has ended.
    WrongLength,
    /// A head word does not hold the offset that the shape's tuple has there.
    InvalidTuple,
    /// A word holds more than its type takes.
    OutOfRange,
    /// Two lists that must pair up differ in length.
    LengthMismatch,
}

/// A decoding failure: what is wrong, and the byte offset of the word that
/// shows it (for a buffer of the wrong size, the buffer's length).
#[derive(Clone, Copy, Debug, PartialEq, Eq, Structural)]
pub struct AbiDecodeError {
    pub kind: AbiErrorKind,
    pub offset: usize,
}

/// The `j`-th word of a buffer.
pub open spec fn word(b: Seq<u8>, j: int) -> Seq<u8> {
    b.subrange(32 * j, 32 * j + 32)
}

/// The number that the `j`-th word of a buffer holds.
pub open spec fn word_value(b: Seq<u8>, j: int) -> nat {
    be_value(word(b, j))
}

/// The word that holds an unsigned integer.
pub open spec fn uint_word(x: nat) -> Seq<u8> {
    be_bytes(x, 32)
}

/// The word that holds an address: twelve zero bytes, then the address.
pub open spec fn address_word(a: [u8; 20]) -> Seq<u8> {
    Seq::new(
        32,
        |i: int|
            if i < 12 {
                0u8
            } else {
                a@[i - 12]
            },
    )
}

/// Whether a word holds an address.
pub open spec fn holds_address(w: Seq<u8>) -> bool {
    exists|a: [u8; 20]| w == #[trigger] address_word(a)
}

/// Words laid end to end.
pub open spec fn flatten(ws: Seq<Seq<u8>>) -> Seq<u8> {
    Seq::new(32 * ws.len(), |i: int| ws[i / 32][i % 32])
}

/// Whether every one of the words has 32 bytes.
pub open spec fn all_words(ws: Seq<Seq<u8>>) -> bool {
    forall|j: int| 0 <= j < ws.len() ==> (#[trigger] ws[j]).len() == 32
}

/// The `j`-th word of words laid end to end is the `j`-th of them.
pub proof fn lemma_flatten_word(ws: Seq<Seq<u8>>, j: int)
    requires
        all_words(ws),
        0 <= j < ws.len(),
    ensures
        word(flatten(ws), j) == ws[j],
{
    assert(word(flatten(ws), j) =~= ws[j]);
}

/// A buffer whose words are the given ones is those words laid end to end.
pub proof fn lemma_flatten_of_words(b: Seq<u8>, ws: Seq<Seq<u8>>)
    requires
        b.len() == 32 * ws.len(),
        forall|j: int| 0 <= j < ws.len() ==> word(b, j) == #[trigger] ws[j],
    ensures
        flatten(ws) == b,
{
    assert forall|i: int| 0 <= i < b.len() implies flatten(ws)[i] == b[i] by {
        let j = i / 32;
        assert(word(b, j) == ws[j]);
        assert(word(b, j)[i % 32] == b[i]);
    }
    assert(flatten(ws) =~= b);
}

/// A word holds `x` exactly when it is the word of `x`.
pub proof fn lemma_uint_word(w: Seq<u8>, x: nat)
    requires
        w.len() == 32,
        x < pow256(32),
    ensures
        (w == uint_word(x)) <==> be_value(w) == x,
        uint_word(x).len() == 32,
{
    lemma_be_bytes_value(x, 32);
    lemma_be_value_bytes(w);
    vstd::arithmetic::div_mod::lemma_small_mod(x, pow256(32));
}

/// The word of `x` has 32 bytes and holds `x`.
pub proof fn lemma_uint_word_value(x: nat)
    requires
        x < pow256(32),
    ensures
        uint_word(x).len() == 32,
        be_value(uint_word(x)) == x,
{
    lemma_be_bytes_value(x, 32);
    vstd::arithmetic::div_mod::lemma_small_mod(x, pow256(32));
}

/// The number that the `j`-th word holds, where it fits in 64 bits.
pub(crate) fn read_uint(bytes: &[u8], j: usize) -> (r: Option<u64>)
    requires
        32 * j + 32 <= bytes.len(),
    ensures
        r == if word_value(bytes@, j as int) <= u64::MAX {
            Some(word_value(bytes@, j as int) as u64)
        } else {
            None
        },
{
    let at: usize = 32 * j;
    let ghost w = word(bytes@, j as int);
    let mut acc: u64 = 0;
    let mut i: usize = 0;
    proof {
        assert(w.take(0) =~= Seq::<u8>::empty());
    }
    while i < 32
        invariant
            0 <= i <= 32,
            at == 32 * j,
            at + 32 <= bytes.len(),
            w == word(bytes@, j as int),
            acc == be_value(w.take(i as int)),
        decreases 32 - i,
    {
        let b: u8 = bytes[at + i];
        proof {
            assert(w.take(i + 1).drop_last() =~= w.take(i as int));
            assert(w.take(i + 1).last() == b);
            lemma_prefix_le(w, i + 1);
        }
        if acc > (u64::MAX - b as u64) / 256 {
            return None;
        }
        acc = acc * 256 + b as u64;
        i += 1;
    }
    proof {
        assert(w.take(32) =~= w);
    }
    Some(acc)
}

/// The byte that the `j`-th word holds, where it holds no more than a byte.
pub(crate) fn read_u8(bytes: &[u8], j: usize) -> (r: Option<u8>)
    requires
        32 * j + 32 <= bytes.len(),
    ensures
        r == if word_value(bytes@, j as int) <= u8::MAX {
            Some(word_value(bytes@, j as int) as u8)
        } else {
            None
        },
{
    match read_uint(bytes, j) {
        Some(x) => if x <= 255 {
            Some(x as u8)
        } else {
            None
        },
        None => None,
    }
}

/// A copy of the `j`-th word.
pub(crate) fn read_word(bytes: &[u8], j: usize) -> (r: [u8; 32])
    requires
        32 * j + 32 <= bytes.len(),
    ensures
        r@ == word(bytes@, j as int),
{
    let at: usize = 32 * j;
    let mut out: [u8; 32] = [0u8; 32];
    let mut i: usize = 0;
    while i < 32
        invariant
            0 <= i <= 32,
            at == 32 * j,
            at + 32 <= bytes.len(),
            forall|k: int| 0 <= k < i ==> out@[k] == bytes@[at + k],
        decreases 32 - i,
    {
        out[i] = bytes[at + i];
        i += 1;
    }
    proof {
        assert(out@ =~= word(bytes@, j as int));
    }
    out
}

/// The address that the `j`-th word holds, where its first twelve bytes are
/// zero.
pub(crate) fn read_address(bytes: &[u8], j: usize) -> (r: Option<[u8; 20]>)
    requires
        32 * j + 32 <= bytes.len(),
    ensures
        match r {
            Some(a) => word(bytes@, j as int) == address_word(a),
            None => !holds_address(word(bytes@, j as int)),
        },
{
    let at: usize = 32 * j;
    let mut i: usize = 0;
    while i < 12
        invariant
            0 <= i <= 12,
            at == 32 * j,
            at + 32 <= bytes.len(),
            forall|k: int| at <= k < at + i ==> bytes@[k] == 0,
        decreases 12 - i,
    {
        if bytes[at + i] != 0 {
            proof {
                assert forall|a: [u8; 20]| word(bytes@, j as int) != #[trigger] address_word(
                    a,
                ) by {
                    assert(word(bytes@, j as int)[i as int] != address_word(a)[i as int]);
                }
            }
            return None;
        }
        i += 1;
    }
    let mut out: [u8; 20] = [0u8; 20];
    let mut n: usize = 0;
    while n < 20
        invariant
            0 <= n <= 20,
            at == 32 * j,
            at + 32 <= bytes.len(),
            forall|k: int| 0 <= k < n ==> out@[k] == bytes@[at + 12 + k],
        decreases 20 - n,
    {
        out[n] = bytes[at + 12 + n];
        n += 1;
    }
    proof {
        assert(word(bytes@, j as int) =~= address_word(out));
    }
    Some(out)
}

} // verus!
