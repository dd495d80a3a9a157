//! What the two kinds of relay attempt share.

use vstd::prelude::*;
use crate::error::{QueryKind, RelayError};
use crate::namada_queries::{BridgePoolResponse, LedgerOutput};
use crate::signature::{canonical_parity, canonical_s, canonicalize, is_canonical, Signature};
use crate::uint256::{be_value, U256};
use crate::signature::order;

verus! {

/// Where the ledger is found, and how a transaction is sent.
#[derive(Clone, Debug, PartialEq, Eq)]
pub struct RelayConfig {
    /// The address at which the ledger listens.
    pub ledger_address: String,
    /// The directory of the ledger's state.
    pub base_dir: String,
    /// The gas ceiling of the contract call.
    pub gas_limit: u64,
    /// The number of block confirmations to wait for.
    pub confirmations: usize,
}

/// Arguments to the validator set update relay call.
#[derive(Clone, Debug, PartialEq, Eq)]
pub struct RelayArgs {
    /// The set of active validators in the bridge.
    pub bridge_validators: Vec<[u8; 20]>,
    /// The voting powers of the set of active validators in the bridge.
    pub bridge_voting_powers: Vec<U256>,
    /// The epoch of the set of active validators in the bridge.
    pub bridge_current_epoch: U256,
    /// The epoch of the next set of validators in the bridge.
    pub next_active_epoch: U256,
    /// A hash of the next set of validators' hot keys.
    pub next_bridge_validator_set_hash: [u8; 32],
    /// A hash of the next set of validators' cold keys.
    pub next_governance_validator_set_hash: [u8; 32],
    /// The signatures over the next set of validators, in canonical form.
    pub proof: Vec<Signature>,
}

/// A transfer as the bridge contract on Ethereum takes it.
#[derive(Clone, Copy, Debug, PartialEq, Eq)]
pub struct Erc20Transfer {
    pub data_digest: [u8; 32],
    pub amount: U256,
    pub from: [u8; 20],
    pub to: [u8; 20],
}

/// A proof that transfers of the bridge pool may be released, as the ledger
/// constructs it. The Merkle proof and its flags are carried, not checked.
#[derive(Clone, Debug, PartialEq, Eq)]
pub struct BridgePoolReleaseProof {
    pub validators: Vec<[u8; 20]>,
    pub powers: Vec<U256>,
    pub epoch: U256,
    pub signatures: Vec<Signature>,
    pub transfers: Vec<Erc20Transfer>,
    pub pool_root: [u8; 32],
    pub merkle_proof: Vec<[u8; 32]>,
    pub merkle_proof_flags: Vec<bool>,
    pub nonce: U256,
    pub relayer_address: String,
}

/// Arguments to the bridge pool release call.
#[derive(Clone, Debug, PartialEq, Eq)]
pub struct BPProofArgs {
    /// The set of active validators.
    pub validators: Vec<[u8; 20]>,
    /// The voting powers of the set of active validators.
    pub voting_powers: Vec<U256>,
    /// The epoch of the set of active validators.
    pub epoch: U256,
    /// The signatures over the pool root, in canonical form.
    pub signatures: Vec<Signature>,
    /// The transfers to release.
    pub transfers: Vec<Erc20Transfer>,
    /// The root of the bridge pool.
    pub pool_root: [u8; 32],
    /// A Merkle proof of the transfers.
    pub proof: Vec<[u8; 32]>,
    /// The flags of the Merkle proof.
    pub proof_flags: Vec<bool>,
    /// Replay protection.
    pub nonce: U256,
    /// The address that is rewarded for relaying.
    pub relayer_address: String,
}

/// What became of a transaction.
#[derive(Clone, Copy, Debug, PartialEq, Eq)]
pub enum ChainOutcome {
    /// The transaction has the confirmations that were asked for.
    Confirmed,
    /// The transaction was rejected or could not be broadcast.
    NotSubmitted,
    /// The transaction was broadcast, and its confirmations were not seen.
    Unconfirmed,
}

/// What the outside world gave.
#[derive(Clone, Debug, PartialEq, Eq)]
pub enum Event {
    /// The ledger process was run.
    Ledger(LedgerOutput),
    /// The document of the pool's contents was parsed, or found not to have
    /// the shape of one.
    PoolContents(Option<BridgePoolResponse>),
    /// The document of a pool proof was parsed, or found not to have the
    /// shape of one.
    PoolProof(Option<BridgePoolReleaseProof>),
    /// A transaction was sent.
    Chain(ChainOutcome),
}

/// What to do next.
#[allow(inconsistent_fields)]
#[derive(Debug, PartialEq, Eq)]
pub enum Action {
    /// Run the ledger binary with these arguments, and hand back its output.
    RunLedger { query: QueryKind, arguments: Vec<String> },
    /// Parse this JSON document as the pool's contents, and hand them back.
    ParsePoolContents { document: String },
    /// Parse this JSON document as a pool proof, and hand it back.
    ParsePoolProof { document: String },
    /// Call `updateValidatorsSet`, and hand back what became of the
    /// transaction.
    UpdateValidatorsSet { args: RelayArgs, gas_limit: u64, confirmations: usize },
    /// Call `transferToErc`, and hand back what became of the transaction.
    TransferToErc { args: BPProofArgs, gas_limit: u64, confirmations: usize },
    /// The attempt is over, with this result.
    Stop { result: Result<(), RelayError> },
}

/// How a transaction's fate ends an attempt.
pub open spec fn chain_result(outcome: ChainOutcome) -> Result<(), RelayError> {
    match outcome {
        ChainOutcome::Confirmed => Ok(()),
        ChainOutcome::NotSubmitted => Err(RelayError::SubmissionFailed),
        ChainOutcome::Unconfirmed => Err(RelayError::ConfirmationTimeout),
    }
}

/// How a transaction's fate ends an attempt.
pub fn conclude(outcome: ChainOutcome) -> (result: Result<(), RelayError>)
    ensures
        result == chain_result(outcome),
{
    match outcome {
        ChainOutcome::Confirmed => Ok(()),
        ChainOutcome::NotSubmitted => Err(RelayError::SubmissionFailed),
        ChainOutcome::Unconfirmed => Err(RelayError::ConfirmationTimeout),
    }
}

/// Whether `out` is the canonical form of `raw`, a signature with a recovery
/// parity of 0 or 1.
pub open spec fn canonical_of(raw: Signature, out: Signature) -> bool {
    &&& raw.v <= 1
    &&& out.r == raw.r
    &&& out.s@ == canonical_s(raw.s@)
    &&& out.v == 27 + canonical_parity(raw.s@, raw.v)
}

/// The index of the first signature from `from` on whose recovery parity is
/// neither 0 nor 1, or the length where there is none.
pub open spec fn first_bad_parity(raw: Seq<Signature>, from: int) -> int
    decreases raw.len() - from,
{
    if from >= raw.len() {
        raw.len() as int
    } else if raw[from].v > 1 {
        from
    } else {
        first_bad_parity(raw, from + 1)
    }
}

/// Brings every signature of a list into canonical form, or reports the
/// first whose recovery parity is neither 0 nor 1.
pub fn canonicalize_all(raw: &Vec<Signature>) -> (res: Result<Vec<Signature>, usize>)
    ensures
        match res {
            Ok(out) => {
                &&& first_bad_parity(raw@, 0) == raw@.len()
                &&& out@.len() == raw@.len()
                &&& forall|i: int| 0 <= i < raw@.len() ==> canonical_of(raw@[i], #[trigger] out@[i])
                &&& forall|i: int|
                    0 <= i < raw@.len() && be_value(raw@[i].s@) <= order() ==> is_canonical(
                        #[trigger] out@[i],
                    )
            },
            Err(index) => index == first_bad_parity(raw@, 0) && index < raw@.len(),
        },
{
    let mut out: Vec<Signature> = Vec::new();
    let mut i: usize = 0;
    while i < raw.len()
        invariant
            0 <= i <= raw.len(),
            out@.len() == i,
            first_bad_parity(raw@, 0) == first_bad_parity(raw@, i as int),
            forall|k: int| 0 <= k < i ==> canonical_of(raw@[k], #[trigger] out@[k]),
            forall|k: int|
                0 <= k < i && be_value(raw@[k].s@) <= order() ==> is_canonical(#[trigger] out@[k]),
        decreases raw.len() - i,
    {
        let sig = raw[i];
        if sig.v > 1 {
            return Err(i);
        }
        out.push(canonicalize(sig.r, sig.s, sig.v));
        i += 1;
    }
    Ok(out)
}

} // verus!
