//! Strict decoding of the ABI shapes that the ledger answers with.
//!
//! Each shape has an encoding, written down as a spec function, and its
//! decoder accepts exactly the byte strings that the function produces.
//! Decoding is strict where general-purpose decoders are lenient: bytes
//! after the end, offsets other than the encoder's, padding that is not zero
//! and lists that do not pair up are all refused, so that a buffer that
//! decodes is never a misread.

use vstd::prelude::*;
use crate::abi::triple::{decode_signature, encode_signature, signature_defect};
use crate::abi::update_proof::{
    decode_validator_set_proof, encode_proof, proof_defect, proof_encodable, ValidatorSetProof,
    ValidatorSetProofView,
};
use crate::abi::validator_set::{
    decode_validator_set, encode_validator_set, validator_set_defect, ValidatorSet,
    ValidatorSetArgs,
};
use crate::abi::words::AbiDecodeError;
use crate::signature::Signature;

pub mod triple;
pub mod update_proof;
pub mod validator_set;
pub mod words;

verus! {

/// The shapes that are decoded.
#[derive(Clone, Copy, Debug, PartialEq, Eq, Structural)]
pub enum Schema {
    /// `(address[], uint256[], uint256)`
    ValidatorSet,
    /// `(bytes32, bytes32, (bytes32, bytes32, uint8)[])`
    ValidatorSetProof,
    /// `(bytes32, bytes32, uint8)`
    Signature,
}

/// A decoded value of one of the shapes.
#[derive(Clone, Debug, PartialEq, Eq)]
pub enum Decoded {
    ValidatorSet(ValidatorSetArgs),
    ValidatorSetProof(ValidatorSetProof),
    Signature(Signature),
}

/// What a `Decoded` holds.
pub enum DecodedView {
    ValidatorSet(ValidatorSet),
    ValidatorSetProof(ValidatorSetProofView),
    Signature(Signature),
}

impl View for Decoded {
    type V = DecodedView;

    open spec fn view(&self) -> DecodedView {
        match self {
            Decoded::ValidatorSet(v) => DecodedView::ValidatorSet(v@),
            Decoded::ValidatorSetProof(p) => DecodedView::ValidatorSetProof(p@),
            Decoded::Signature(s) => DecodedView::Signature(*s),
        }
    }
}

/// The shape of a value.
pub open spec fn schema_of(v: DecodedView) -> Schema {
    match v {
        DecodedView::ValidatorSet(_) => Schema::ValidatorSet,
        DecodedView::ValidatorSetProof(_) => Schema::ValidatorSetProof,
        DecodedView::Signature(_) => Schema::Signature,
    }
}

/// The encoding of a value.
pub open spec fn encode(v: DecodedView) -> Seq<u8> {
    match v {
        DecodedView::ValidatorSet(s) => encode_validator_set(s),
        DecodedView::ValidatorSetProof(p) => encode_proof(p),
        DecodedView::Signature(s) => encode_signature(s),
    }
}

/// What is wrong with a buffer that should hold a value of a shape, if
/// anything.
pub open spec fn defect(schema: Schema, b: Seq<u8>) -> Option<AbiDecodeError> {
    match schema {
        Schema::ValidatorSet => validator_set_defect(b),
        Schema::ValidatorSetProof => proof_defect(b),
        Schema::Signature => signature_defect(b),
    }
}

/// Whether a value has an encoding: its lists pair up and are short enough
/// for their lengths to fit a word.
pub open spec fn encodable(v: DecodedView) -> bool {
    match v {
        DecodedView::ValidatorSet(s) => s.well_formed(),
        DecodedView::ValidatorSetProof(p) => proof_encodable(p),
        DecodedView::Signature(_) => true,
    }
}

/// Decodes a buffer against a shape: a value of that shape whose encoding
/// the buffer is, or what is wrong with the buffer. The encoding of a value
/// decodes to that value.
pub fn decode(schema: Schema, bytes: &[u8]) -> (res: Result<Decoded, AbiDecodeError>)
    ensures
        match res {
            Ok(v) => {
                &&& defect(schema, bytes@) is None
                &&& schema_of(v@) == schema
                &&& bytes@ == encode(v@)
            },
            Err(e) => defect(schema, bytes@) == Some(e),
        },
        forall|v: DecodedView|
            schema_of(v) == schema && encodable(v) && bytes@ == #[trigger] encode(v) ==> res is Ok
                && res.unwrap()@ == v,
{
    match schema {
        Schema::ValidatorSet => match decode_validator_set(bytes) {
            Ok(v) => Ok(Decoded::ValidatorSet(v)),
            Err(e) => Err(e),
        },
        Schema::ValidatorSetProof => match decode_validator_set_proof(bytes) {
            Ok(p) => Ok(Decoded::ValidatorSetProof(p)),
            Err(e) => Err(e),
        },
        Schema::Signature => match decode_signature(bytes) {
            Ok(s) => Ok(Decoded::Signature(s)),
            Err(e) => Err(e),
        },
    }
}

} // verus!
