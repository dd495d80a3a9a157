//! Relaying a validator set update: ask for the set that is active on the
//! bridge, ask for the proof of the next set, and call `updateValidatorsSet`.

use vstd::prelude::*;
use crate::abi::update_proof::{encode_proof, proof_defect, ValidatorSetProof};
use crate::abi::validator_set::{encode_validator_set, validator_set_defect, ValidatorSetArgs};
use crate::error::{
    relay_error_of, InputDefect, QueryError, QueryKind, RelayError, ResponseDefect,
};
use crate::namada_queries::{
    hex_payload_of, response_text, texts, validator_set_arguments, ExecuteQuery, LedgerOutput,
    QueryExecutor,
};
use crate::relay::common::{
    canonical_of, canonicalize_all, chain_result, conclude, first_bad_parity, Action, Event,
    RelayArgs, RelayConfig,
};
use crate::uint256::{lemma_be_value_bound, pow256, U256};

verus! {

/// Which epoch's set is taken to be active on the bridge when the set of
/// epoch `E` is relayed, and which epoch the call announces as the next.
#[derive(Clone, Copy, Debug, PartialEq, Eq)]
pub enum EpochConvention {
    /// The active set is that of `E - 1`; the next epoch is its nonce plus
    /// one.
    Previous,
    /// The active set is that of `E - 2`, or of epoch 0 before that; the next
    /// epoch is `E`.
    SecondPrevious,
}

/// How far a validator set relay has come.
#[derive(Clone, Debug, PartialEq, Eq)]
pub enum ValidatorSetPhase {
    /// The active set was asked for.
    AwaitingActiveSet,
    /// The active set is known, and the proof was asked for.
    AwaitingProof { active: ValidatorSetArgs },
    /// The contract call was handed out.
    AwaitingConfirmation,
    /// The attempt is over.
    Finished,
}

/// An attempt to relay the validator set of one epoch.
#[derive(Clone, Debug, PartialEq, Eq)]
pub struct ValidatorSetRelay {
    pub config: RelayConfig,
    pub convention: EpochConvention,
    pub epoch: u64,
    pub phase: ValidatorSetPhase,
}

/// The epoch whose set is active on the bridge when the set of `epoch` is
/// relayed.
pub open spec fn reference_epoch(convention: EpochConvention, epoch: u64) -> u64 {
    match convention {
        EpochConvention::Previous => if epoch >= 1 {
            (epoch - 1) as u64
        } else {
            0
        },
        EpochConvention::SecondPrevious => if epoch >= 2 {
            (epoch - 2) as u64
        } else {
            0
        },
    }
}

/// The epoch that the call announces as the next one, where there is one.
pub open spec fn next_active_epoch(convention: EpochConvention, epoch: u64, nonce: nat) -> Option<
    nat,
> {
    match convention {
        EpochConvention::Previous => if nonce + 1 < pow256(32) {
            Some(nonce + 1)
        } else {
            None
        },
        EpochConvention::SecondPrevious => Some(epoch as nat),
    }
}

/// The bytes that the ledger answered with, or why there are none.
pub open spec fn payload(output: LedgerOutput) -> Result<Seq<u8>, QueryError> {
    match response_text(output) {
        Err(e) => Err(e),
        Ok(text) => match hex_payload_of(text) {
            Err(d) => Err(QueryError::MalformedResponse(d)),
            Ok(bytes) => Ok(bytes),
        },
    }
}

/// Whether an attempt has ended with this error.
pub open spec fn stopped(after: ValidatorSetRelay, action: Action, error: RelayError) -> bool {
    &&& after.phase is Finished
    &&& action == Action::Stop { result: Err::<(), RelayError>(error) }
}

/// Whether an action asks the ledger for a validator-set artifact.
pub open spec fn asks(
    action: Action,
    config: RelayConfig,
    query: QueryKind,
    command: Seq<char>,
    epoch: u64,
) -> bool {
    &&& action matches Action::RunLedger { query: q, arguments }
    &&& q == query
    &&& texts(arguments@) == validator_set_arguments(
        config.base_dir@,
        config.ledger_address@,
        command,
        Some(epoch),
    )
}

/// Whether `args` are the arguments of the contract call for the set of
/// `epoch`, given the active set and the proof of the next one.
pub open spec fn assembled(
    args: RelayArgs,
    convention: EpochConvention,
    epoch: u64,
    active: ValidatorSetArgs,
    proof: ValidatorSetProof,
) -> bool {
    &&& args.bridge_validators@ == active.validators@
    &&& args.bridge_voting_powers@ == active.powers@
    &&& args.bridge_current_epoch == active.nonce
    &&& Some(args.next_active_epoch@) == next_active_epoch(convention, epoch, active.nonce@)
    &&& args.next_bridge_validator_set_hash == proof.bridge_hash
    &&& args.next_governance_validator_set_hash == proof.governance_hash
    &&& args.proof@.len() == proof.signatures@.len()
    &&& forall|i: int|
        0 <= i < proof.signatures@.len() ==> canonical_of(
            proof.signatures@[i],
            #[trigger] args.proof@[i],
        )
}

/// Whether `after` and `action` are what follows the start of an attempt.
pub open spec fn begun(
    config: RelayConfig,
    convention: EpochConvention,
    epoch: u64,
    after: ValidatorSetRelay,
    action: Action,
) -> bool {
    &&& after.config == config
    &&& after.convention == convention
    &&& after.epoch == epoch
    &&& if epoch == 0 {
        stopped(after, action, RelayError::InvalidInput(InputDefect::InvalidEpoch))
    } else {
        &&& after.phase is AwaitingActiveSet
        &&& asks(
            action,
            config,
            QueryKind::ActiveValidatorSet,
            "active"@,
            reference_epoch(convention, epoch),
        )
    }
}

/// Whether `after` and `action` are what follows `before` on `event`.
pub open spec fn advanced(
    before: ValidatorSetRelay,
    event: Event,
    after: ValidatorSetRelay,
    action: Action,
) -> bool {
    &&& after.config == before.config
    &&& after.convention == before.convention
    &&& after.epoch == before.epoch
    &&& match (before.phase, event) {
        (ValidatorSetPhase::AwaitingActiveSet, Event::Ledger(output)) => match payload(output) {
            Err(e) => stopped(after, action, relay_error_of(QueryKind::ActiveValidatorSet, e)),
            Ok(bytes) => match validator_set_defect(bytes) {
                Some(e) => stopped(
                    after,
                    action,
                    RelayError::MalformedResponse {
                        query: QueryKind::ActiveValidatorSet,
                        defect: ResponseDefect::Abi(e),
                    },
                ),
                None => {
                    &&& after.phase matches ValidatorSetPhase::AwaitingProof { active }
                    &&& active.well_formed()
                    &&& encode_validator_set(active@) == bytes
                    &&& asks(
                        action,
                        before.config,
                        QueryKind::ValidatorSetUpdateProof,
                        "proof"@,
                        before.epoch,
                    )
                },
            },
        },
        (ValidatorSetPhase::AwaitingProof { active }, Event::Ledger(output)) => match payload(
            output,
        ) {
            Err(e) => stopped(after, action, relay_error_of(QueryKind::ValidatorSetUpdateProof, e)),
            Ok(bytes) => match proof_defect(bytes) {
                Some(e) => stopped(
                    after,
                    action,
                    RelayError::MalformedResponse {
                        query: QueryKind::ValidatorSetUpdateProof,
                        defect: ResponseDefect::Abi(e),
                    },
                ),
                None => exists|proof: ValidatorSetProof|
                    encode_proof(proof@) == bytes && #[trigger] submitted(
                        before.config,
                        before.convention,
                        before.epoch,
                        active,
                        proof,
                        after,
                        action,
                    ),
            },
        },
        (ValidatorSetPhase::AwaitingConfirmation, Event::Chain(outcome)) => {
            &&& after.phase is Finished
            &&& action == Action::Stop { result: chain_result(outcome) }
        },
        _ => stopped(after, action, RelayError::InvalidInput(InputDefect::UnexpectedEvent)),
    }
}

/// Whether `after` and `action` are what follows once the active set and the
/// proof of the next set are known.
pub open spec fn submitted(
    config: RelayConfig,
    convention: EpochConvention,
    epoch: u64,
    active: ValidatorSetArgs,
    proof: ValidatorSetProof,
    after: ValidatorSetRelay,
    action: Action,
) -> bool {
    let bad = first_bad_parity(proof.signatures@, 0);
    if bad < proof.signatures@.len() {
        stopped(
            after,
            action,
            RelayError::MalformedResponse {
                query: QueryKind::ValidatorSetUpdateProof,
                defect: ResponseDefect::RecoveryParity { index: bad as usize },
            },
        )
    } else if next_active_epoch(convention, epoch, active.nonce@) is None {
        stopped(
            after,
            action,
            RelayError::MalformedResponse {
                query: QueryKind::ValidatorSetUpdateProof,
                defect: ResponseDefect::NonceExhausted,
            },
        )
    } else {
        &&& after.phase is AwaitingConfirmation
        &&& action matches Action::UpdateValidatorsSet { args, gas_limit, confirmations }
        &&& gas_limit == config.gas_limit
        &&& confirmations == config.confirmations
        &&& assembled(args, convention, epoch, active, proof)
    }
}

/// The query for the set that is active on the bridge at `epoch`.
fn active_set_query(config: &RelayConfig, epoch: u64) -> (arguments: Vec<String>)
    ensures
        texts(arguments@) == validator_set_arguments(
            config.base_dir@,
            config.ledger_address@,
            "active"@,
            Some(epoch),
        ),
{
    QueryExecutor::active_validator_set().ledger_address(config.ledger_address.clone()).base_dir(
        config.base_dir.clone(),
    ).at_epoch(epoch).command()
}

/// The query for the proof of the set of `epoch`.
fn proof_query(config: &RelayConfig, epoch: u64) -> (arguments: Vec<String>)
    ensures
        texts(arguments@) == validator_set_arguments(
            config.base_dir@,
            config.ledger_address@,
            "proof"@,
            Some(epoch),
        ),
{
    QueryExecutor::validator_set_update_proof().ledger_address(
        config.ledger_address.clone(),
    ).base_dir(config.base_dir.clone()).at_epoch(epoch).command()
}

impl ValidatorSetRelay {
    /// Starts an attempt to relay the validator set of `epoch`. Epoch zero
    /// has no set to relay and ends the attempt at once, before any query;
    /// any other epoch asks for the set that is active on the bridge.
    pub fn begin(config: RelayConfig, convention: EpochConvention, epoch: u64) -> (r: (
        ValidatorSetRelay,
        Action,
    ))
        ensures
            begun(config, convention, epoch, r.0, r.1),
    {
        if epoch == 0 {
            let after = ValidatorSetRelay {
                config,
                convention,
                epoch,
                phase: ValidatorSetPhase::Finished,
            };
            return (
                after,
                Action::Stop { result: Err(RelayError::InvalidInput(InputDefect::InvalidEpoch)) },
            );
        }
        let reference: u64 = match convention {
            EpochConvention::Previous => epoch - 1,
            EpochConvention::SecondPrevious => epoch.saturating_sub(2),
        };
        let arguments = active_set_query(&config, reference);
        let after = ValidatorSetRelay {
            config,
            convention,
            epoch,
            phase: ValidatorSetPhase::AwaitingActiveSet,
        };
        (after, Action::RunLedger { query: QueryKind::ActiveValidatorSet, arguments })
    }

    /// The attempt, ended with `error`.
    fn stop(self, error: RelayError) -> (r: (ValidatorSetRelay, Action))
        ensures
            r.0.config == self.config,
            r.0.convention == self.convention,
            r.0.epoch == self.epoch,
            stopped(r.0, r.1, error),
    {
        let after = ValidatorSetRelay {
            config: self.config,
            convention: self.convention,
            epoch: self.epoch,
            phase: ValidatorSetPhase::Finished,
        };
        (after, Action::Stop { result: Err(error) })
    }

    /// Takes the attempt one step further: decides, from what the outside
    /// world gave, what to do next. A failure at any step ends the attempt.
    pub fn advance(self, event: Event) -> (r: (ValidatorSetRelay, Action))
        ensures
            advanced(self, event, r.0, r.1),
    {
        let ValidatorSetRelay { config, convention, epoch, phase } = self;
        match (phase, event) {
            (ValidatorSetPhase::AwaitingActiveSet, Event::Ledger(output)) => {
                let before = ValidatorSetRelay {
                    config,
                    convention,
                    epoch,
                    phase: ValidatorSetPhase::AwaitingActiveSet,
                };
                match QueryExecutor::active_validator_set().execute_query(&output) {
                    Err(e) => before.stop(RelayError::from_query(QueryKind::ActiveValidatorSet, e)),
                    Ok(active) => {
                        let arguments = proof_query(&before.config, epoch);
                        let after = ValidatorSetRelay {
                            config: before.config,
                            convention,
                            epoch,
                            phase: ValidatorSetPhase::AwaitingProof { active },
                        };
                        (
                            after,
                            Action::RunLedger {
                                query: QueryKind::ValidatorSetUpdateProof,
                                arguments,
                            },
                        )
                    },
                }
            },
            (ValidatorSetPhase::AwaitingProof { active }, Event::Ledger(output)) => {
                match QueryExecutor::validator_set_update_proof().execute_query(&output) {
                    Err(e) => {
                        let before = ValidatorSetRelay {
                            config,
                            convention,
                            epoch,
                            phase: ValidatorSetPhase::AwaitingProof { active },
                        };
                        before.stop(RelayError::from_query(QueryKind::ValidatorSetUpdateProof, e))
                    },
                    Ok(proof) => Self::submit(config, convention, epoch, active, proof),
                }
            },
            (ValidatorSetPhase::AwaitingConfirmation, Event::Chain(outcome)) => {
                let after = ValidatorSetRelay {
                    config,
                    convention,
                    epoch,
                    phase: ValidatorSetPhase::Finished,
                };
                (after, Action::Stop { result: conclude(outcome) })
            },
            (phase, _) => {
                let before = ValidatorSetRelay { config, convention, epoch, phase };
                before.stop(RelayError::InvalidInput(InputDefect::UnexpectedEvent))
            },
        }
    }

    /// Puts the contract call together once the active set and the proof of
    /// the next set are known.
    fn submit(
        config: RelayConfig,
        convention: EpochConvention,
        epoch: u64,
        active: ValidatorSetArgs,
        proof: ValidatorSetProof,
    ) -> (r: (ValidatorSetRelay, Action))
        ensures
            r.0.config == config,
            r.0.convention == convention,
            r.0.epoch == epoch,
            submitted(config, convention, epoch, active, proof, r.0, r.1),
    {
        let before = ValidatorSetRelay {
            config,
            convention,
            epoch,
            phase: ValidatorSetPhase::Finished,
        };
        let signatures = match canonicalize_all(&proof.signatures) {
            Ok(s) => s,
            Err(index) => {
                return before.stop(
                    RelayError::MalformedResponse {
                        query: QueryKind::ValidatorSetUpdateProof,
                        defect: ResponseDefect::RecoveryParity { index },
                    },
                );
            },
        };
        let next = match convention {
            EpochConvention::Previous => match active.nonce.checked_successor() {
                Some(n) => {
                    proof {
                        lemma_be_value_bound(n.bytes@);
                    }
                    n
                },
                None => {
                    return before.stop(
                        RelayError::MalformedResponse {
                            query: QueryKind::ValidatorSetUpdateProof,
                            defect: ResponseDefect::NonceExhausted,
                        },
                    );
                },
            },
            EpochConvention::SecondPrevious => U256::from_u64(epoch),
        };
        let args = RelayArgs {
            bridge_validators: active.validators,
            bridge_voting_powers: active.powers,
            bridge_current_epoch: active.nonce,
            next_active_epoch: next,
            next_bridge_validator_set_hash: proof.bridge_hash,
            next_governance_validator_set_hash: proof.governance_hash,
            proof: signatures,
        };
        let gas_limit = before.config.gas_limit;
        let confirmations = before.config.confirmations;
        let after = ValidatorSetRelay {
            config: before.config,
            convention,
            epoch,
            phase: ValidatorSetPhase::AwaitingConfirmation,
        };
        (after, Action::UpdateValidatorsSet { args, gas_limit, confirmations })
    }
}

/// A query that fails ends the attempt: whatever the phase, once the ledger
/// gives no response text the next action is to stop with an error, and no
/// contract call is ever asked for.
pub proof fn law_failed_query_stops(
    before: ValidatorSetRelay,
    output: LedgerOutput,
    after: ValidatorSetRelay,
    action: Action,
)
    requires
        advanced(before, Event::Ledger(output), after, action),
        response_text(output) is Err,
    ensures
        after.phase is Finished,
        action is Stop,
        action->result is Err,
{
}

/// An attempt that is over stays over: every further event is answered with
/// a stop.
pub proof fn law_finished_stays_finished(
    before: ValidatorSetRelay,
    event: Event,
    after: ValidatorSetRelay,
    action: Action,
)
    requires
        advanced(before, event, after, action),
        before.phase is Finished,
    ensures
        after.phase is Finished,
        action is Stop,
{
}

/// The two queries come in order: the proof of the next set is asked for
/// only once the response to the query for the active set has been decoded.
pub proof fn law_proof_is_asked_after_the_active_set(
    before: ValidatorSetRelay,
    event: Event,
    after: ValidatorSetRelay,
    action: Action,
)
    requires
        advanced(before, event, after, action),
        action is RunLedger,
    ensures
        before.phase is AwaitingActiveSet,
        event is Ledger,
        payload(event->Ledger_0) is Ok,
        validator_set_defect(payload(event->Ledger_0).unwrap()) is None,
        after.phase is AwaitingProof,
        action->query == QueryKind::ValidatorSetUpdateProof,
{
}

/// The contract call is asked for at one point only: when the proof arrives
/// while it is awaited. It then carries as many signatures as the proof,
/// each with a `v` of 27 or 28, and the gas ceiling and the confirmations of
/// the configuration.
pub proof fn law_call_follows_the_proof(
    before: ValidatorSetRelay,
    event: Event,
    after: ValidatorSetRelay,
    action: Action,
)
    requires
        advanced(before, event, after, action),
        action is UpdateValidatorsSet,
    ensures
        before.phase is AwaitingProof,
        event is Ledger,
        payload(event->Ledger_0) is Ok,
        after.phase is AwaitingConfirmation,
        action->UpdateValidatorsSet_gas_limit == before.config.gas_limit,
        action->UpdateValidatorsSet_confirmations == before.config.confirmations,
        forall|i: int|
            0 <= i < action->UpdateValidatorsSet_args.proof@.len() ==> {
                let v = (#[trigger] action->UpdateValidatorsSet_args.proof@[i]).v;
                v == 27 || v == 28
            },
{
}

} // verus!
