//! The validator-set update proof
//! `(bytes32, bytes32, (bytes32, bytes32, uint8)[])`.

use vstd::prelude::*;
use crate::abi::triple::{read_signature, signature_word};
use crate::abi::words::{
    all_words, flatten, lemma_flatten_of_words, lemma_flatten_word, lemma_uint_word,
    lemma_uint_word_value, read_uint, read_word, uint_word, word, word_value, AbiDecodeError,
    AbiErrorKind,
};
use crate::signature::Signature;
use crate::uint256::{lemma_pow256_32, pow256};

verus! {

/// A proof that the validators of one epoch have signed off the set of the
/// next: hashes that commit to the next set's hot and cold keys, and the
/// signatures over them.
#[derive(Clone, Debug, PartialEq, Eq)]
pub struct ValidatorSetProof {
    pub bridge_hash: [u8; 32],
    pub governance_hash: [u8; 32],
    pub signatures: Vec<Signature>,
}

/// What a `ValidatorSetProof` holds.
pub struct ValidatorSetProofView {
    pub bridge_hash: [u8; 32],
    pub governance_hash: [u8; 32],
    pub signatures: Seq<Signature>,
}

impl View for ValidatorSetProof {
    type V = ValidatorSetProofView;

    open spec fn view(&self) -> ValidatorSetProofView {
        ValidatorSetProofView {
            bridge_hash: self.bridge_hash,
            governance_hash: self.governance_hash,
            signatures: self.signatures@,
        }
    }
}

/// The words of a proof: the offset of the tuple, its head of two hashes and
/// the offset of the list, the length of the list, and three words for each
/// signature.
pub open spec fn proof_words(p: ValidatorSetProofView) -> Seq<Seq<u8>> {
    seq![
        uint_word(32),
        p.bridge_hash@,
        p.governance_hash@,
        uint_word(96),
        uint_word(p.signatures.len()),
    ] + Seq::new(3 * p.signatures.len(), |k: int| signature_word(p.signatures[k / 3], k % 3))
}

/// The encoding of a proof.
pub open spec fn encode_proof(p: ValidatorSetProofView) -> Seq<u8> {
    flatten(proof_words(p))
}

/// The number in the `v` word of the `i`-th signature of a buffer.
pub open spec fn parity_value(b: Seq<u8>, i: int) -> nat {
    word_value(b, 7 + 3 * i)
}

/// The index of the first signature from `from` on whose `v` word holds more
/// than a byte, or `count` where there is none.
pub open spec fn first_wide_parity(b: Seq<u8>, from: int, count: int) -> int
    decreases count - from,
{
    if from >= count {
        count
    } else if parity_value(b, from) > 255 {
        from
    } else {
        first_wide_parity(b, from + 1, count)
    }
}

/// What is wrong with a buffer that should hold a proof, if anything: the
/// first of these that applies.
pub open spec fn proof_defect(b: Seq<u8>) -> Option<AbiDecodeError> {
    let len = b.len();
    let count = word_value(b, 4);
    let wide = first_wide_parity(b, 0, count as int);
    if len < 160 {
        Some(AbiDecodeError { kind: AbiErrorKind::Truncated, offset: len as usize })
    } else if word_value(b, 0) != 32 {
        Some(AbiDecodeError { kind: AbiErrorKind::InvalidTuple, offset: 0 })
    } else if word_value(b, 3) != 96 {
        Some(AbiDecodeError { kind: AbiErrorKind::InvalidTuple, offset: 96 })
    } else if 160 + 96 * count > len {
        Some(AbiDecodeError { kind: AbiErrorKind::Truncated, offset: len as usize })
    } else if 160 + 96 * count < len {
        Some(AbiDecodeError { kind: AbiErrorKind::WrongLength, offset: len as usize })
    } else if wide < count {
        Some(
            AbiDecodeError {
                kind: AbiErrorKind::OutOfRange,
                offset: (32 * (7 + 3 * wide)) as usize,
            },
        )
    } else {
        None
    }
}

/// Whether a proof is short enough for its length to fit a word.
pub open spec fn proof_encodable(p: ValidatorSetProofView) -> bool {
    p.signatures.len() < pow256(32)
}

/// The encoding of a proof has five words and three for each signature.
pub proof fn lemma_proof_length(p: ValidatorSetProofView)
    ensures
        encode_proof(p).len() == 160 + 96 * p.signatures.len(),
{
}

/// Where each part of a proof stands in its encoding.
proof fn lemma_proof_words(p: ValidatorSetProofView)
    requires
        proof_encodable(p),
    ensures
        all_words(proof_words(p)),
        proof_words(p).len() == 5 + 3 * p.signatures.len(),
        encode_proof(p).len() == 160 + 96 * p.signatures.len(),
        forall|j: int|
            0 <= j < 5 + 3 * p.signatures.len() ==> word(encode_proof(p), j)
                == #[trigger] proof_words(p)[j],
        forall|i: int|
            0 <= i < p.signatures.len() ==> {
                &&& proof_words(p)[5 + 3 * i] == (#[trigger] p.signatures[i]).r@
                &&& proof_words(p)[6 + 3 * i] == p.signatures[i].s@
                &&& proof_words(p)[7 + 3 * i] == uint_word(p.signatures[i].v as nat)
            },
{
    lemma_pow256_32();
    lemma_uint_word_value(32);
    lemma_uint_word_value(96);
    lemma_uint_word_value(p.signatures.len());
    let m = p.signatures.len() as int;
    let ws = proof_words(p);
    let tail = Seq::new(
        3 * p.signatures.len(),
        |k: int| signature_word(p.signatures[k / 3], k % 3),
    );
    assert(ws.len() == 5 + 3 * m);
    assert forall|k: int| 0 <= k < 3 * m implies (#[trigger] tail[k]).len() == 32 by {
        lemma_uint_word_value(p.signatures[k / 3].v as nat);
    }
    assert forall|j: int| 0 <= j < ws.len() implies (#[trigger] ws[j]).len() == 32 by {
        if j >= 5 {
            assert(ws[j] == tail[j - 5]);
        }
    }
    assert forall|j: int| 0 <= j < 5 + 3 * m implies word(encode_proof(p), j)
        == #[trigger] ws[j] by {
        lemma_flatten_word(ws, j);
    }
    assert forall|i: int| 0 <= i < m implies {
        &&& ws[5 + 3 * i] == (#[trigger] p.signatures[i]).r@
        &&& ws[6 + 3 * i] == p.signatures[i].s@
        &&& ws[7 + 3 * i] == uint_word(p.signatures[i].v as nat)
    } by {
        assert(ws[5 + 3 * i] == tail[3 * i]);
        assert(ws[6 + 3 * i] == tail[3 * i + 1]);
        assert(ws[7 + 3 * i] == tail[3 * i + 2]);
        assert((3 * i) / 3 == i && (3 * i) % 3 == 0);
        assert((3 * i + 1) / 3 == i && (3 * i + 1) % 3 == 1);
        assert((3 * i + 2) / 3 == i && (3 * i + 2) % 3 == 2);
    }
}

/// Where every `v` word holds a byte, none is the first that does not.
proof fn lemma_no_wide_parity(b: Seq<u8>, from: int, count: int)
    requires
        0 <= from <= count,
        forall|i: int| from <= i < count ==> parity_value(b, i) <= 255,
    ensures
        first_wide_parity(b, from, count) == count,
    decreases count - from,
{
    if from < count {
        lemma_no_wide_parity(b, from + 1, count);
    }
}

/// Decodes a validator-set update proof. The buffer is accepted exactly when
/// it is the encoding of a proof, and that proof is returned.
#[verifier::loop_isolation(false)]
pub fn decode_validator_set_proof(bytes: &[u8]) -> (res: Result<ValidatorSetProof, AbiDecodeError>)
    ensures
        match res {
            Ok(p) => proof_defect(bytes@) is None && bytes@ == encode_proof(p@),
            Err(e) => proof_defect(bytes@) == Some(e),
        },
        forall|v: ValidatorSetProofView|
            proof_encodable(v) && bytes@ == #[trigger] encode_proof(v) ==> res is Ok
                && res.unwrap()@ == v,
{
    let len = bytes.len();
    proof {
        lemma_pow256_32();
        assert forall|v: ValidatorSetProofView|
            proof_encodable(v) && bytes@ == #[trigger] encode_proof(v) implies proof_defect(
            bytes@,
        ) is None by {
            law_proof_round_trip(v);
        }
    }
    if len < 160 {
        return Err(AbiDecodeError { kind: AbiErrorKind::Truncated, offset: len });
    }
    if read_uint(bytes, 0) != Some(32) {
        return Err(AbiDecodeError { kind: AbiErrorKind::InvalidTuple, offset: 0 });
    }
    if read_uint(bytes, 3) != Some(96) {
        return Err(AbiDecodeError { kind: AbiErrorKind::InvalidTuple, offset: 96 });
    }
    let room: u64 = ((len - 160) / 96) as u64;
    let count: usize = match read_uint(bytes, 4) {
        Some(c) => {
            if c > room {
                return Err(AbiDecodeError { kind: AbiErrorKind::Truncated, offset: len });
            }
            c as usize
        },
        None => {
            return Err(AbiDecodeError { kind: AbiErrorKind::Truncated, offset: len });
        },
    };
    if 160 + 96 * count < len {
        return Err(AbiDecodeError { kind: AbiErrorKind::WrongLength, offset: len });
    }
    let bridge_hash = read_word(bytes, 1);
    let governance_hash = read_word(bytes, 2);
    let mut signatures: Vec<Signature> = Vec::new();
    let mut i: usize = 0;
    while i < count
        invariant
            0 <= i <= count,
            len == bytes.len(),
            len == 160 + 96 * count,
            signatures@.len() == i,
            first_wide_parity(bytes@, 0, count as int) == first_wide_parity(
                bytes@,
                i as int,
                count as int,
            ),
            forall|k: int|
                0 <= k < i ==> {
                    &&& word(bytes@, 5 + 3 * k) == (#[trigger] signatures@[k]).r@
                    &&& word(bytes@, 6 + 3 * k) == signatures@[k].s@
                    &&& word(bytes@, 7 + 3 * k) == uint_word(signatures@[k].v as nat)
                },
        decreases count - i,
    {
        match read_signature(bytes, 5 + 3 * i) {
            Some(sig) => {
                signatures.push(sig);
            },
            None => {
                return Err(
                    AbiDecodeError { kind: AbiErrorKind::OutOfRange, offset: 32 * (7 + 3 * i) },
                );
            },
        }
        i += 1;
    }
    let decoded = ValidatorSetProof { bridge_hash, governance_hash, signatures };
    proof {
        let v = decoded@;
        let ws = proof_words(v);
        lemma_uint_word(word(bytes@, 0), 32);
        lemma_uint_word(word(bytes@, 3), 96);
        lemma_uint_word(word(bytes@, 4), count as nat);
        assert forall|j: int| 0 <= j < ws.len() implies word(bytes@, j) == #[trigger] ws[j] by {
            if j >= 5 {
                let k = (j - 5) / 3;
                assert(word(bytes@, 5 + 3 * k) == v.signatures[k].r@);
            }
        }
        lemma_flatten_of_words(bytes@, ws);
        assert forall|w: ValidatorSetProofView|
            proof_encodable(w) && bytes@ == #[trigger] encode_proof(w) implies w == v by {
            law_proof_encoding_injective(w, v);
        }
    }
    Ok(decoded)
}

/// The encoding of a proof has no defect.
pub proof fn law_proof_round_trip(p: ValidatorSetProofView)
    requires
        proof_encodable(p),
    ensures
        proof_defect(encode_proof(p)) is None,
{
    let b = encode_proof(p);
    let m = p.signatures.len() as int;
    lemma_proof_words(p);
    lemma_pow256_32();
    lemma_uint_word_value(32);
    lemma_uint_word_value(96);
    lemma_uint_word_value(p.signatures.len());
    assert(word(b, 0) == proof_words(p)[0]);
    assert(word(b, 3) == proof_words(p)[3]);
    assert(word(b, 4) == proof_words(p)[4]);
    assert forall|i: int| 0 <= i < m implies parity_value(b, i) <= 255 by {
        assert(word(b, 7 + 3 * i) == proof_words(p)[7 + 3 * i]);
        assert(proof_words(p)[5 + 3 * i] == p.signatures[i].r@);
        lemma_uint_word_value(p.signatures[i].v as nat);
    }
    lemma_no_wide_parity(b, 0, m);
}

/// Two proofs with one encoding are the same proof.
pub proof fn law_proof_encoding_injective(p: ValidatorSetProofView, q: ValidatorSetProofView)
    requires
        proof_encodable(p),
        proof_encodable(q),
        encode_proof(p) == encode_proof(q),
    ensures
        p == q,
{
    let b = encode_proof(p);
    lemma_proof_words(p);
    lemma_proof_words(q);
    lemma_pow256_32();
    let m = p.signatures.len() as int;
    assert(q.signatures.len() == m);
    assert(word(b, 1) == proof_words(p)[1]);
    assert(word(b, 1) == proof_words(q)[1]);
    assert(word(b, 2) == proof_words(p)[2]);
    assert(word(b, 2) == proof_words(q)[2]);
    assert(p.bridge_hash =~= q.bridge_hash);
    assert(p.governance_hash =~= q.governance_hash);
    assert forall|i: int| 0 <= i < m implies p.signatures[i] == q.signatures[i] by {
        let x = p.signatures[i];
        let y = q.signatures[i];
        assert(proof_words(p)[5 + 3 * i] == x.r@);
        assert(proof_words(q)[5 + 3 * i] == y.r@);
        assert(word(b, 5 + 3 * i) == proof_words(p)[5 + 3 * i]);
        assert(word(b, 5 + 3 * i) == proof_words(q)[5 + 3 * i]);
        assert(word(b, 6 + 3 * i) == proof_words(p)[6 + 3 * i]);
        assert(word(b, 6 + 3 * i) == proof_words(q)[6 + 3 * i]);
        assert(word(b, 7 + 3 * i) == proof_words(p)[7 + 3 * i]);
        assert(word(b, 7 + 3 * i) == proof_words(q)[7 + 3 * i]);
        lemma_uint_word_value(x.v as nat);
        lemma_uint_word_value(y.v as nat);
        assert(x.r =~= y.r);
        assert(x.s =~= y.s);
    }
    assert(p.signatures =~= q.signatures);
}

/// No proper prefix of a proof's encoding decodes.
pub proof fn law_proof_truncated(p: ValidatorSetProofView, k: int)
    requires
        proof_encodable(p),
        0 <= k < encode_proof(p).len(),
    ensures
        proof_defect(encode_proof(p).take(k)) is Some,
{
    let b = encode_proof(p);
    let t = b.take(k);
    lemma_proof_words(p);
    lemma_pow256_32();
    lemma_uint_word_value(p.signatures.len());
    if k >= 160 {
        assert(word(t, 4) =~= word(b, 4));
        assert(word(b, 4) == proof_words(p)[4]);
    }
}

} // verus!
