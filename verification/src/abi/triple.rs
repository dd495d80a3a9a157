//! The signature triple `(bytes32 r, bytes32 s, uint8 v)`.

use vstd::prelude::*;
use crate::abi::words::{
    flatten, lemma_flatten_of_words, lemma_flatten_word, lemma_uint_word, lemma_uint_word_value,
    read_u8, read_word, uint_word, word, word_value, AbiDecodeError, AbiErrorKind,
};
use crate::signature::Signature;
use crate::uint256::lemma_pow256_32;

verus! {

/// The `c`-th of the three words of a signature: `r`, `s`, then `v`.
pub open spec fn signature_word(sig: Signature, c: int) -> Seq<u8> {
    if c == 0 {
        sig.r@
    } else if c == 1 {
        sig.s@
    } else {
        uint_word(sig.v as nat)
    }
}

/// The three words of a signature.
pub open spec fn signature_words(sig: Signature) -> Seq<Seq<u8>> {
    Seq::new(3, |c: int| signature_word(sig, c))
}

/// The encoding of a signature triple.
pub open spec fn encode_signature(sig: Signature) -> Seq<u8> {
    flatten(signature_words(sig))
}

/// What is wrong with a buffer that should hold one signature triple, if
/// anything: the first of these that applies.
pub open spec fn signature_defect(b: Seq<u8>) -> Option<AbiDecodeError> {
    if b.len() < 96 {
        Some(AbiDecodeError { kind: AbiErrorKind::Truncated, offset: b.len() as usize })
    } else if b.len() > 96 {
        Some(AbiDecodeError { kind: AbiErrorKind::WrongLength, offset: b.len() as usize })
    } else if word_value(b, 2) > 255 {
        Some(AbiDecodeError { kind: AbiErrorKind::OutOfRange, offset: 64 })
    } else {
        None
    }
}

/// The words of a signature, read back from a buffer that holds them from
/// word `j` on.
pub proof fn lemma_signature_words_at(b: Seq<u8>, j: int, sig: Signature)
    requires
        0 <= j,
        32 * j + 96 <= b.len(),
    ensures
        (word(b, j) == sig.r@ && word(b, j + 1) == sig.s@ && word(b, j + 2) == uint_word(
            sig.v as nat,
        )) <==> (word(b, j) == sig.r@ && word(b, j + 1) == sig.s@ && word_value(b, j + 2)
            == sig.v),
{
    lemma_pow256_32();
    lemma_uint_word(word(b, j + 2), sig.v as nat);
}

/// The signature that stands in words `j`, `j + 1` and `j + 2`, where the
/// third holds no more than a byte.
pub(crate) fn read_signature(bytes: &[u8], j: usize) -> (r: Option<Signature>)
    requires
        32 * j + 96 <= bytes.len(),
    ensures
        match r {
            Some(sig) => {
                &&& word(bytes@, j as int) == sig.r@
                &&& word(bytes@, j + 1) == sig.s@
                &&& word(bytes@, j + 2) == uint_word(sig.v as nat)
                &&& word_value(bytes@, j + 2) == sig.v
            },
            None => word_value(bytes@, j + 2) > 255,
        },
{
    match read_u8(bytes, j + 2) {
        Some(v) => {
            let r = read_word(bytes, j);
            let s = read_word(bytes, j + 1);
            let sig = Signature { r, s, v };
            proof {
                lemma_signature_words_at(bytes@, j as int, sig);
            }
            Some(sig)
        },
        None => None,
    }
}

/// Decodes one signature triple. The buffer is accepted exactly when it is
/// the encoding of a signature, and that signature is returned.
pub fn decode_signature(bytes: &[u8]) -> (res: Result<Signature, AbiDecodeError>)
    ensures
        match res {
            Ok(sig) => signature_defect(bytes@) is None && bytes@ == encode_signature(sig),
            Err(e) => signature_defect(bytes@) == Some(e),
        },
        forall|sig: Signature|
            bytes@ == #[trigger] encode_signature(sig) ==> res == Ok::<Signature, AbiDecodeError>(
                sig,
            ),
{
    let len = bytes.len();
    if len < 96 {
        return Err(AbiDecodeError { kind: AbiErrorKind::Truncated, offset: len });
    }
    if len > 96 {
        return Err(AbiDecodeError { kind: AbiErrorKind::WrongLength, offset: len });
    }
    match read_signature(bytes, 0) {
        Some(sig) => {
            proof {
                lemma_flatten_of_words(bytes@, signature_words(sig));
                assert forall|other: Signature| bytes@ == #[trigger] encode_signature(
                    other,
                ) implies other == sig by {
                    law_signature_encoding_injective(other, sig);
                }
            }
            Ok(sig)
        },
        None => {
            proof {
                assert forall|sig: Signature| bytes@ != #[trigger] encode_signature(sig) by {
                    law_signature_round_trip(sig);
                }
            }
            Err(AbiDecodeError { kind: AbiErrorKind::OutOfRange, offset: 64 })
        },
    }
}

/// The encoding of a signature has no defect.
pub proof fn law_signature_round_trip(sig: Signature)
    ensures
        signature_defect(encode_signature(sig)) is None,
        encode_signature(sig).len() == 96,
{
    let b = encode_signature(sig);
    lemma_pow256_32();
    lemma_uint_word_value(sig.v as nat);
    lemma_flatten_word(signature_words(sig), 2);
}

/// Two signatures with one encoding are the same signature.
pub proof fn law_signature_encoding_injective(a: Signature, b: Signature)
    requires
        encode_signature(a) == encode_signature(b),
    ensures
        a == b,
{
    lemma_pow256_32();
    lemma_uint_word_value(a.v as nat);
    lemma_uint_word_value(b.v as nat);
    lemma_flatten_word(signature_words(a), 0);
    lemma_flatten_word(signature_words(a), 1);
    lemma_flatten_word(signature_words(a), 2);
    lemma_flatten_word(signature_words(b), 0);
    lemma_flatten_word(signature_words(b), 1);
    lemma_flatten_word(signature_words(b), 2);
    assert(a.r@ == b.r@);
    assert(a.s@ == b.s@);
    assert(a.r =~= b.r);
    assert(a.s =~= b.s);
}

/// No proper prefix of a signature's encoding decodes.
pub proof fn law_signature_truncated(sig: Signature, k: int)
    requires
        0 <= k < encode_signature(sig).len(),
    ensures
        signature_defect(encode_signature(sig).take(k)) is Some,
{
}

} // verus!
