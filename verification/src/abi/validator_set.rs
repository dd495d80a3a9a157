//! The active validator set `(address[], uint256[], uint256)`.

use vstd::prelude::*;
use crate::abi::words::{
    address_word, all_words, flatten, holds_address, lemma_flatten_of_words, lemma_flatten_word,
    lemma_uint_word, lemma_uint_word_value, read_address, read_uint, read_word, uint_word, word,
    word_value, AbiDecodeError, AbiErrorKind,
};
use crate::uint256::{lemma_pow256_32, U256};

verus! {

/// The validators that sign for the bridge in one epoch, each with its
/// voting power, and the nonce of the set. The two lists pair up.
#[derive(Clone, Debug, PartialEq, Eq)]
pub struct ValidatorSetArgs {
    pub validators: Vec<[u8; 20]>,
    pub powers: Vec<U256>,
    pub nonce: U256,
}

/// What a `ValidatorSetArgs` holds.
pub struct ValidatorSet {
    pub validators: Seq<[u8; 20]>,
    pub powers: Seq<U256>,
    pub nonce: U256,
}

impl View for ValidatorSetArgs {
    type V = ValidatorSet;

    open spec fn view(&self) -> ValidatorSet {
        ValidatorSet { validators: self.validators@, powers: self.powers@, nonce: self.nonce }
    }
}

impl ValidatorSet {
    /// Whether each validator has its power, and the lists are short enough
    /// for their lengths to fit a word.
    pub open spec fn well_formed(self) -> bool {
        &&& self.validators.len() == self.powers.len()
        &&& self.validators.len() <= u64::MAX
    }
}

impl ValidatorSetArgs {
    /// Whether each validator has its power.
    pub open spec fn well_formed(&self) -> bool {
        self@.well_formed()
    }
}

/// The words of a validator set: the offset of the tuple; its head, which is
/// the offsets of the two lists and the nonce; then each list as its length
/// and its items.
pub open spec fn validator_set_words(v: ValidatorSet) -> Seq<Seq<u8>> {
    seq![
        uint_word(32),
        uint_word(96),
        uint_word(128 + 32 * v.validators.len()),
        v.nonce.bytes@,
        uint_word(v.validators.len()),
    ] + Seq::new(v.validators.len(), |i: int| address_word(v.validators[i])) + seq![
        uint_word(v.powers.len()),
    ] + Seq::new(v.powers.len(), |i: int| v.powers[i].bytes@)
}

/// The encoding of a validator set.
pub open spec fn encode_validator_set(v: ValidatorSet) -> Seq<u8> {
    flatten(validator_set_words(v))
}

/// Whether the `i`-th validator word of a buffer holds an address.
pub open spec fn address_at(b: Seq<u8>, i: int) -> bool {
    holds_address(word(b, 5 + i))
}

/// The index of the first validator word from `from` on that holds no
/// address, or `count` where there is none.
pub open spec fn first_bad_address(b: Seq<u8>, from: int, count: int) -> int
    decreases count - from,
{
    if from >= count {
        count
    } else if !address_at(b, from) {
        from
    } else {
        first_bad_address(b, from + 1, count)
    }
}

/// What is wrong with a buffer that should hold a validator set, if
/// anything: the first of these that applies.
pub open spec fn validator_set_defect(b: Seq<u8>) -> Option<AbiDecodeError> {
    let len = b.len();
    let n = word_value(b, 4) as int;
    let m = word_value(b, 5 + n) as int;
    let bad = first_bad_address(b, 0, n);
    if len < 160 {
        Some(AbiDecodeError { kind: AbiErrorKind::Truncated, offset: len as usize })
    } else if word_value(b, 0) != 32 {
        Some(AbiDecodeError { kind: AbiErrorKind::InvalidTuple, offset: 0 })
    } else if word_value(b, 1) != 96 {
        Some(AbiDecodeError { kind: AbiErrorKind::InvalidTuple, offset: 32 })
    } else if 192 + 32 * n > len {
        Some(AbiDecodeError { kind: AbiErrorKind::Truncated, offset: len as usize })
    } else if word_value(b, 2) != 128 + 32 * n {
        Some(AbiDecodeError { kind: AbiErrorKind::InvalidTuple, offset: 64 })
    } else if 192 + 32 * (n + m) > len {
        Some(AbiDecodeError { kind: AbiErrorKind::Truncated, offset: len as usize })
    } else if 192 + 32 * (n + m) < len {
        Some(AbiDecodeError { kind: AbiErrorKind::WrongLength, offset: len as usize })
    } else if n != m {
        Some(AbiDecodeError { kind: AbiErrorKind::LengthMismatch, offset: (32 * (5 + n)) as usize })
    } else if bad < n {
        Some(AbiDecodeError { kind: AbiErrorKind::OutOfRange, offset: (32 * (5 + bad)) as usize })
    } else {
        None
    }
}

/// Where each part of a validator set stands in its encoding.
proof fn lemma_validator_set_words(v: ValidatorSet)
    requires
        v.validators.len() <= u64::MAX,
        v.powers.len() <= u64::MAX,
    ensures
        all_words(validator_set_words(v)),
        validator_set_words(v).len() == 6 + v.validators.len() + v.powers.len(),
        encode_validator_set(v).len() == 192 + 32 * (v.validators.len() + v.powers.len()),
        forall|j: int|
            0 <= j < 6 + v.validators.len() + v.powers.len() ==> word(encode_validator_set(v), j)
                == #[trigger] validator_set_words(v)[j],
        word_value(encode_validator_set(v), 0) == 32,
        word_value(encode_validator_set(v), 1) == 96,
        word_value(encode_validator_set(v), 2) == 128 + 32 * v.validators.len(),
        word(encode_validator_set(v), 3) == v.nonce.bytes@,
        word_value(encode_validator_set(v), 4) == v.validators.len(),
        word_value(encode_validator_set(v), 5 + v.validators.len() as int) == v.powers.len(),
        forall|i: int|
            0 <= i < v.validators.len() ==> word(encode_validator_set(v), 5 + i) == address_word(
                #[trigger] v.validators[i],
            ),
        forall|i: int|
            0 <= i < v.powers.len() ==> word(encode_validator_set(v), 6 + v.validators.len() + i)
                == (#[trigger] v.powers[i]).bytes@,
{
    let n = v.validators.len() as int;
    let m = v.powers.len() as int;
    let ws = validator_set_words(v);
    let b = encode_validator_set(v);
    lemma_pow256_32();
    lemma_uint_word_value(32);
    lemma_uint_word_value(96);
    lemma_uint_word_value((128 + 32 * n) as nat);
    lemma_uint_word_value(n as nat);
    lemma_uint_word_value(m as nat);
    assert(all_words(ws));
    assert forall|j: int| 0 <= j < 6 + n + m implies word(b, j) == #[trigger] ws[j] by {
        lemma_flatten_word(ws, j);
    }
    assert(word(b, 0) == ws[0]);
    assert(word(b, 1) == ws[1]);
    assert(word(b, 2) == ws[2]);
    assert(word(b, 3) == ws[3]);
    assert(word(b, 4) == ws[4]);
    assert(word(b, 5 + n) == ws[5 + n]);
    assert forall|i: int| 0 <= i < n implies word(b, 5 + i) == address_word(
        #[trigger] v.validators[i],
    ) by {
        assert(word(b, 5 + i) == ws[5 + i]);
    }
    assert forall|i: int| 0 <= i < m implies word(b, 6 + n + i) == (
    #[trigger] v.powers[i]).bytes@ by {
        assert(word(b, 6 + n + i) == ws[6 + n + i]);
    }
}

/// Where every validator word holds an address, none is the first that
/// does not.
proof fn lemma_no_bad_address(b: Seq<u8>, from: int, count: int)
    requires
        0 <= from <= count,
        forall|i: int| from <= i < count ==> address_at(b, i),
    ensures
        first_bad_address(b, from, count) == count,
    decreases count - from,
{
    if from < count {
        lemma_no_bad_address(b, from + 1, count);
    }
}

/// Decodes an active validator set. The buffer is accepted exactly when it
/// is the encoding of a well-formed validator set, and that set is returned.
#[verifier::loop_isolation(false)]
pub fn decode_validator_set(bytes: &[u8]) -> (res: Result<ValidatorSetArgs, AbiDecodeError>)
    ensures
        match res {
            Ok(args) => {
                &&& validator_set_defect(bytes@) is None
                &&& args.well_formed()
                &&& bytes@ == encode_validator_set(args@)
            },
            Err(e) => validator_set_defect(bytes@) == Some(e),
        },
        forall|v: ValidatorSet|
            v.well_formed() && bytes@ == #[trigger] encode_validator_set(v) ==> res is Ok
                && res.unwrap()@ == v,
{
    let len = bytes.len();
    proof {
        lemma_pow256_32();
        assert forall|v: ValidatorSet|
            v.well_formed() && bytes@ == #[trigger] encode_validator_set(
                v,
            ) implies validator_set_defect(bytes@) is None by {
            law_validator_set_round_trip(v);
        }
    }
    if len < 160 {
        return Err(AbiDecodeError { kind: AbiErrorKind::Truncated, offset: len });
    }
    if read_uint(bytes, 0) != Some(32) {
        return Err(AbiDecodeError { kind: AbiErrorKind::InvalidTuple, offset: 0 });
    }
    if read_uint(bytes, 1) != Some(96) {
        return Err(AbiDecodeError { kind: AbiErrorKind::InvalidTuple, offset: 32 });
    }
    let room: u64 = ((len - 160) / 32) as u64;
    let n: usize = match read_uint(bytes, 4) {
        Some(c) => {
            if c >= room {
                return Err(AbiDecodeError { kind: AbiErrorKind::Truncated, offset: len });
            }
            c as usize
        },
        None => {
            return Err(AbiDecodeError { kind: AbiErrorKind::Truncated, offset: len });
        },
    };
    if read_uint(bytes, 2) != Some((128 + 32 * n) as u64) {
        return Err(AbiDecodeError { kind: AbiErrorKind::InvalidTuple, offset: 64 });
    }
    let rest: u64 = ((len - 192 - 32 * n) / 32) as u64;
    let m: usize = match read_uint(bytes, 5 + n) {
        Some(c) => {
            if c > rest {
                return Err(AbiDecodeError { kind: AbiErrorKind::Truncated, offset: len });
            }
            c as usize
        },
        None => {
            return Err(AbiDecodeError { kind: AbiErrorKind::Truncated, offset: len });
        },
    };
    if 192 + 32 * (n + m) < len {
        return Err(AbiDecodeError { kind: AbiErrorKind::WrongLength, offset: len });
    }
    if n != m {
        return Err(AbiDecodeError { kind: AbiErrorKind::LengthMismatch, offset: 32 * (5 + n) });
    }
    let nonce = U256 { bytes: read_word(bytes, 3) };
    let mut validators: Vec<[u8; 20]> = Vec::new();
    let mut i: usize = 0;
    while i < n
        invariant
            0 <= i <= n,
            validators@.len() == i,
            first_bad_address(bytes@, 0, n as int) == first_bad_address(bytes@, i as int, n as int),
            forall|k: int|
                0 <= k < i ==> word(bytes@, 5 + k) == address_word(#[trigger] validators@[k]),
        decreases n - i,
    {
        match read_address(bytes, 5 + i) {
            Some(a) => {
                validators.push(a);
            },
            None => {
                return Err(AbiDecodeError { kind: AbiErrorKind::OutOfRange, offset: 32 * (5 + i) });
            },
        }
        i += 1;
    }
    let mut powers: Vec<U256> = Vec::new();
    let mut k: usize = 0;
    while k < m
        invariant
            0 <= k <= m,
            powers@.len() == k,
            forall|q: int| 0 <= q < k ==> word(bytes@, 6 + n + q) == (#[trigger] powers@[q]).bytes@,
        decreases m - k,
    {
        powers.push(U256 { bytes: read_word(bytes, 6 + n + k) });
        k += 1;
    }
    let decoded = ValidatorSetArgs { validators, powers, nonce };
    proof {
        let v = decoded@;
        let ws = validator_set_words(v);
        lemma_uint_word(word(bytes@, 0), 32);
        lemma_uint_word(word(bytes@, 1), 96);
        lemma_uint_word(word(bytes@, 2), (128 + 32 * n) as nat);
        lemma_uint_word(word(bytes@, 4), n as nat);
        lemma_uint_word(word(bytes@, 5 + n), m as nat);
        assert forall|j: int| 0 <= j < ws.len() implies word(bytes@, j) == #[trigger] ws[j] by {
            if 5 <= j < 5 + n {
                assert(word(bytes@, 5 + (j - 5)) == address_word(v.validators[j - 5]));
            } else if j > 5 + n {
                assert(word(bytes@, 6 + n + (j - 6 - n)) == v.powers[j - 6 - n].bytes@);
            }
        }
        lemma_flatten_of_words(bytes@, ws);
        assert forall|w: ValidatorSet|
            w.well_formed() && bytes@ == #[trigger] encode_validator_set(w) implies w == v by {
            law_validator_set_encoding_injective(w, v);
        }
    }
    Ok(decoded)
}

/// The encoding of a well-formed validator set has no defect.
pub proof fn law_validator_set_round_trip(v: ValidatorSet)
    requires
        v.well_formed(),
    ensures
        validator_set_defect(encode_validator_set(v)) is None,
{
    let b = encode_validator_set(v);
    let n = v.validators.len() as int;
    lemma_validator_set_words(v);
    assert forall|i: int| 0 <= i < n implies address_at(b, i) by {
        assert(word(b, 5 + i) == address_word(v.validators[i]));
    }
    lemma_no_bad_address(b, 0, n);
}

/// Two validator sets with one encoding are the same set.
pub proof fn law_validator_set_encoding_injective(v: ValidatorSet, w: ValidatorSet)
    requires
        v.well_formed(),
        w.well_formed(),
        encode_validator_set(v) == encode_validator_set(w),
    ensures
        v == w,
{
    let b = encode_validator_set(v);
    lemma_validator_set_words(v);
    lemma_validator_set_words(w);
    let n = v.validators.len() as int;
    assert(w.validators.len() == n);
    assert(v.nonce.bytes =~= w.nonce.bytes);
    assert forall|i: int| 0 <= i < n implies v.validators[i] == w.validators[i] by {
        let x = v.validators[i];
        let y = w.validators[i];
        assert(address_word(x) == address_word(y));
        assert forall|k: int| 0 <= k < 20 implies x@[k] == y@[k] by {
            assert(address_word(x)[12 + k] == x@[k]);
            assert(address_word(y)[12 + k] == y@[k]);
        }
        assert(x =~= y);
    }
    assert forall|i: int| 0 <= i < n implies v.powers[i] == w.powers[i] by {
        assert(v.powers[i].bytes@ == w.powers[i].bytes@);
        assert(v.powers[i].bytes =~= w.powers[i].bytes);
    }
    assert(v.validators =~= w.validators);
    assert(v.powers =~= w.powers);
}

/// No proper prefix of a validator set's encoding decodes.
pub proof fn law_validator_set_truncated(v: ValidatorSet, k: int)
    requires
        v.well_formed(),
        0 <= k < encode_validator_set(v).len(),
    ensures
        validator_set_defect(encode_validator_set(v).take(k)) is Some,
{
    let b = encode_validator_set(v);
    let t = b.take(k);
    let n = v.validators.len() as int;
    lemma_validator_set_words(v);
    if k >= 160 {
        assert(word(t, 4) =~= word(b, 4));
        if 192 + 32 * n <= k {
            assert(word(t, 5 + n) =~= word(b, 5 + n));
        }
    }
}

} // verus!
