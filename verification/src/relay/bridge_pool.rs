//! Relaying transfers out of the bridge pool: ask for the pool's signed
//! contents, ask for a proof of the transfers that are chosen, and call
//! `transferToErc`.

use vstd::prelude::*;
use vstd::string::StringExecFns;
use crate::error::{relay_error_of, InputDefect, QueryKind, RelayError, ResponseDefect};
use crate::namada_queries::{
    bridge_pool_arguments, json_document_of, response_text, spaced, texts, BridgePoolResponse,
    ExecuteQuery, LedgerOutput, QueryExecutor,
};
use crate::relay::common::{
    canonical_of, canonicalize_all, chain_result, conclude, first_bad_parity, Action,
    BPProofArgs, BridgePoolReleaseProof, Event, RelayConfig,
};
use crate::text::trimmed;
use crate::types::PendingTransfer;

verus! {

/// How far a bridge pool relay has come.
#[derive(Clone, Copy, Debug, PartialEq, Eq)]
pub enum BridgePoolPhase {
    /// The pool's contents were asked for.
    AwaitingContents,
    /// The document of the pool's contents was handed out for parsing.
    ParsingContents,
    /// The proof was asked for.
    AwaitingProof,
    /// The document of the proof was handed out for parsing.
    ParsingProof,
    /// The contract call was handed out.
    AwaitingConfirmation,
    /// The attempt is over.
    Finished,
}

/// An attempt to relay the transfers that wait in the bridge pool.
#[derive(Clone, Debug, PartialEq, Eq)]
pub struct BridgePoolRelay {
    pub config: RelayConfig,
    /// The address to reward for relaying; where there is none, the sender
    /// of the first pending transfer is taken.
    pub relayer: Option<String>,
    pub phase: BridgePoolPhase,
}

/// The identifiers of the transfers in the pool, in the order of the
/// response.
pub open spec fn identifiers(pool: BridgePoolResponse) -> Seq<Seq<char>> {
    pool.bridge_pool_contents@.map_values(|e: (String, PendingTransfer)| e.0@)
}

/// The address that is rewarded for relaying the transfers of a pool that
/// is not empty.
pub open spec fn chosen_relayer(relayer: Option<String>, pool: BridgePoolResponse) -> Seq<char> {
    match relayer {
        Some(r) => r@,
        None => pool.bridge_pool_contents@[0].1.transfer.sender@,
    }
}

/// Whether an attempt has ended with this error.
pub open spec fn stopped(after: BridgePoolRelay, action: Action, error: RelayError) -> bool {
    &&& after.phase is Finished
    &&& action == Action::Stop { result: Err::<(), RelayError>(error) }
}

/// Whether an action asks the ledger for something about the bridge pool.
pub open spec fn asks(
    action: Action,
    config: RelayConfig,
    query: QueryKind,
    command: Seq<char>,
    extra: Seq<Seq<char>>,
) -> bool {
    &&& action matches Action::RunLedger { query: q, arguments }
    &&& q == query
    &&& texts(arguments@) == bridge_pool_arguments(
        config.base_dir@,
        config.ledger_address@,
        command,
        extra,
    )
}

/// Whether `args` are the arguments of the contract call for a proof: the
/// proof as it is, but for its signatures, which are brought into canonical
/// form.
pub open spec fn released(args: BPProofArgs, proof: BridgePoolReleaseProof) -> bool {
    &&& args.validators@ == proof.validators@
    &&& args.voting_powers@ == proof.powers@
    &&& args.epoch == proof.epoch
    &&& args.transfers@ == proof.transfers@
    &&& args.pool_root == proof.pool_root
    &&& args.proof@ == proof.merkle_proof@
    &&& args.proof_flags@ == proof.merkle_proof_flags@
    &&& args.nonce == proof.nonce
    &&& args.relayer_address@ == proof.relayer_address@
    &&& args.signatures@.len() == proof.signatures@.len()
    &&& forall|i: int|
        0 <= i < proof.signatures@.len() ==> canonical_of(
            proof.signatures@[i],
            #[trigger] args.signatures@[i],
        )
}

/// Whether `after` and `action` are what follows the start of an attempt.
pub open spec fn begun(
    config: RelayConfig,
    relayer: Option<String>,
    after: BridgePoolRelay,
    action: Action,
) -> bool {
    &&& after.config == config
    &&& after.relayer == relayer
    &&& after.phase is AwaitingContents
    &&& asks(
        action,
        config,
        QueryKind::SignedBridgePool,
        "query-signed"@,
        Seq::<Seq<char>>::empty(),
    )
}

/// Whether `after` and `action` are what follows `before` on `event`.
pub open spec fn advanced(
    before: BridgePoolRelay,
    event: Event,
    after: BridgePoolRelay,
    action: Action,
) -> bool {
    &&& after.config == before.config
    &&& after.relayer == before.relayer
    &&& match (before.phase, event) {
        (BridgePoolPhase::AwaitingContents, Event::Ledger(output)) => match response_text(output) {
            Err(e) => stopped(after, action, relay_error_of(QueryKind::SignedBridgePool, e)),
            Ok(text) => {
                &&& after.phase is ParsingContents
                &&& action matches Action::ParsePoolContents { document }
                &&& document@ == text
            },
        },
        (BridgePoolPhase::ParsingContents, Event::PoolContents(None)) => stopped(
            after,
            action,
            RelayError::MalformedResponse {
                query: QueryKind::SignedBridgePool,
                defect: ResponseDefect::Json,
            },
        ),
        (
            BridgePoolPhase::ParsingContents,
            Event::PoolContents(Some(pool)),
        ) => if pool.bridge_pool_contents@.len() == 0 {
            stopped(after, action, RelayError::InvalidInput(InputDefect::NoTransfers))
        } else {
            &&& after.phase is AwaitingProof
            &&& asks(
                action,
                before.config,
                QueryKind::BridgePoolProof,
                "construct-proof"@,
                seq![
                    "--relayer"@,
                    chosen_relayer(before.relayer, pool),
                    "--hash-list"@,
                    trimmed(spaced(identifiers(pool))),
                ],
            )
        },
        (BridgePoolPhase::AwaitingProof, Event::Ledger(output)) => match response_text(output) {
            Err(e) => stopped(after, action, relay_error_of(QueryKind::BridgePoolProof, e)),
            Ok(text) => {
                &&& after.phase is ParsingProof
                &&& action matches Action::ParsePoolProof { document }
                &&& document@ == json_document_of(text)
            },
        },
        (BridgePoolPhase::ParsingProof, Event::PoolProof(None)) => stopped(
            after,
            action,
            RelayError::MalformedResponse {
                query: QueryKind::BridgePoolProof,
                defect: ResponseDefect::Json,
            },
        ),
        (BridgePoolPhase::ParsingProof, Event::PoolProof(Some(proof))) => {
            let bad = first_bad_parity(proof.signatures@, 0);
            if bad < proof.signatures@.len() {
                stopped(
                    after,
                    action,
                    RelayError::MalformedResponse {
                        query: QueryKind::BridgePoolProof,
                        defect: ResponseDefect::RecoveryParity { index: bad as usize },
                    },
                )
            } else {
                &&& after.phase is AwaitingConfirmation
                &&& action matches Action::TransferToErc { args, gas_limit, confirmations }
                &&& gas_limit == before.config.gas_limit
                &&& confirmations == before.config.confirmations
                &&& released(args, proof)
            }
        },
        (BridgePoolPhase::AwaitingConfirmation, Event::Chain(outcome)) => {
            &&& after.phase is Finished
            &&& action == Action::Stop { result: chain_result(outcome) }
        },
        _ => stopped(after, action, RelayError::InvalidInput(InputDefect::UnexpectedEvent)),
    }
}

/// The identifiers of every transfer in the pool.
pub fn select_transfers(pool: &BridgePoolResponse) -> (hashes: Vec<String>)
    ensures
        texts(hashes@) == identifiers(*pool),
{
    let mut hashes: Vec<String> = Vec::new();
    let mut i: usize = 0;
    while i < pool.bridge_pool_contents.len()
        invariant
            0 <= i <= pool.bridge_pool_contents.len(),
            hashes@.len() == i,
            forall|k: int|
                0 <= k < i ==> (#[trigger] hashes@[k])@ == pool.bridge_pool_contents@[k].0@,
        decreases pool.bridge_pool_contents.len() - i,
    {
        hashes.push(pool.bridge_pool_contents[i].0.clone());
        i += 1;
    }
    proof {
        assert(texts(hashes@) =~= identifiers(*pool));
    }
    hashes
}

impl BridgePoolRelay {
    /// Starts an attempt: asks for the pool's signed contents.
    pub fn begin(config: RelayConfig, relayer: Option<String>) -> (r: (BridgePoolRelay, Action))
        ensures
            begun(config, relayer, r.0, r.1),
    {
        let arguments = QueryExecutor::signed_bridge_pool_transfers().ledger_address(
            config.ledger_address.clone(),
        ).base_dir(config.base_dir.clone()).command();
        let after = BridgePoolRelay { config, relayer, phase: BridgePoolPhase::AwaitingContents };
        (after, Action::RunLedger { query: QueryKind::SignedBridgePool, arguments })
    }

    /// The attempt, ended with `error`.
    fn stop(self, error: RelayError) -> (r: (BridgePoolRelay, Action))
        ensures
            r.0.config == self.config,
            r.0.relayer == self.relayer,
            stopped(r.0, r.1, error),
    {
        let after = BridgePoolRelay {
            config: self.config,
            relayer: self.relayer,
            phase: BridgePoolPhase::Finished,
        };
        (after, Action::Stop { result: Err(error) })
    }

    /// The attempt in another phase.
    fn moved(self, phase: BridgePoolPhase) -> (r: BridgePoolRelay)
        ensures
            r.config == self.config,
            r.relayer == self.relayer,
            r.phase == phase,
    {
        BridgePoolRelay { config: self.config, relayer: self.relayer, phase }
    }

    /// Takes the attempt one step further: decides, from what the outside
    /// world gave, what to do next. A failure at any step ends the attempt;
    /// a pool without transfers ends it before any proof is asked for.
    pub fn advance(self, event: Event) -> (r: (BridgePoolRelay, Action))
        ensures
            advanced(self, event, r.0, r.1),
    {
        match (self.phase, event) {
            (BridgePoolPhase::AwaitingContents, Event::Ledger(output)) => {
                match QueryExecutor::signed_bridge_pool_transfers().execute_query(&output) {
                    Err(e) => self.stop(RelayError::from_query(QueryKind::SignedBridgePool, e)),
                    Ok(document) => (
                        self.moved(BridgePoolPhase::ParsingContents),
                        Action::ParsePoolContents { document },
                    ),
                }
            },
            (BridgePoolPhase::ParsingContents, Event::PoolContents(None)) => self.stop(
                RelayError::MalformedResponse {
                    query: QueryKind::SignedBridgePool,
                    defect: ResponseDefect::Json,
                },
            ),
            (BridgePoolPhase::ParsingContents, Event::PoolContents(Some(pool))) => {
                if pool.bridge_pool_contents.len() == 0 {
                    return self.stop(RelayError::InvalidInput(InputDefect::NoTransfers));
                }
                let relayer = match &self.relayer {
                    Some(r) => r.clone(),
                    None => pool.bridge_pool_contents[0].1.transfer.sender.clone(),
                };
                let arguments = QueryExecutor::bridge_pool_proof().ledger_address(
                    self.config.ledger_address.clone(),
                ).base_dir(self.config.base_dir.clone()).hashes(
                    select_transfers(&pool),
                ).with_relayer(relayer).command();
                (
                    self.moved(BridgePoolPhase::AwaitingProof),
                    Action::RunLedger { query: QueryKind::BridgePoolProof, arguments },
                )
            },
            (BridgePoolPhase::AwaitingProof, Event::Ledger(output)) => {
                match QueryExecutor::bridge_pool_proof().execute_query(&output) {
                    Err(e) => self.stop(RelayError::from_query(QueryKind::BridgePoolProof, e)),
                    Ok(document) => (
                        self.moved(BridgePoolPhase::ParsingProof),
                        Action::ParsePoolProof { document },
                    ),
                }
            },
            (BridgePoolPhase::ParsingProof, Event::PoolProof(None)) => self.stop(
                RelayError::MalformedResponse {
                    query: QueryKind::BridgePoolProof,
                    defect: ResponseDefect::Json,
                },
            ),
            (BridgePoolPhase::ParsingProof, Event::PoolProof(Some(proof))) => {
                let signatures = match canonicalize_all(&proof.signatures) {
                    Ok(s) => s,
                    Err(index) => {
                        return self.stop(
                            RelayError::MalformedResponse {
                                query: QueryKind::BridgePoolProof,
                                defect: ResponseDefect::RecoveryParity { index },
                            },
                        );
                    },
                };
                let args = BPProofArgs {
                    validators: proof.validators,
                    voting_powers: proof.powers,
                    epoch: proof.epoch,
                    signatures,
                    transfers: proof.transfers,
                    pool_root: proof.pool_root,
                    proof: proof.merkle_proof,
                    proof_flags: proof.merkle_proof_flags,
                    nonce: proof.nonce,
                    relayer_address: proof.relayer_address,
                };
                let gas_limit = self.config.gas_limit;
                let confirmations = self.config.confirmations;
                (
                    self.moved(BridgePoolPhase::AwaitingConfirmation),
                    Action::TransferToErc { args, gas_limit, confirmations },
                )
            },
            (BridgePoolPhase::AwaitingConfirmation, Event::Chain(outcome)) => (
                self.moved(BridgePoolPhase::Finished),
                Action::Stop { result: conclude(outcome) },
            ),
            _ => self.stop(RelayError::InvalidInput(InputDefect::UnexpectedEvent)),
        }
    }
}

/// A pool without transfers ends the attempt with `NoTransfers`: no proof
/// is asked for nothing.
pub proof fn law_empty_pool_stops(
    before: BridgePoolRelay,
    pool: BridgePoolResponse,
    after: BridgePoolRelay,
    action: Action,
)
    requires
        advanced(before, Event::PoolContents(Some(pool)), after, action),
        before.phase is ParsingContents,
        pool.bridge_pool_contents@.len() == 0,
    ensures
        after.phase is Finished,
        action == (Action::Stop {
            result: Err::<(), RelayError>(RelayError::InvalidInput(InputDefect::NoTransfers)),
        }),
{
}

/// A query that fails ends the attempt: whatever the phase, once the ledger
/// gives no response text the next action is to stop with an error.
pub proof fn law_failed_query_stops(
    before: BridgePoolRelay,
    output: LedgerOutput,
    after: BridgePoolRelay,
    action: Action,
)
    requires
        advanced(before, Event::Ledger(output), after, action),
        response_text(output) is Err,
    ensures
        after.phase is Finished,
        action is Stop,
        action->result is Err,
{
}

/// The two queries come in order: the proof is asked for only once the
/// pool's contents are known, and then for every transfer in the pool.
pub proof fn law_proof_is_asked_after_the_contents(
    before: BridgePoolRelay,
    event: Event,
    after: BridgePoolRelay,
    action: Action,
)
    requires
        advanced(before, event, after, action),
        action is RunLedger,
    ensures
        before.phase is ParsingContents,
        event matches Event::PoolContents(Some(pool)) && pool.bridge_pool_contents@.len() > 0,
        after.phase is AwaitingProof,
        action->query == QueryKind::BridgePoolProof,
{
}

/// The contract call is asked for at one point only: when the parsed proof
/// arrives while it is awaited. It then carries as many signatures as the
/// proof, each with a `v` of 27 or 28.
pub proof fn law_call_follows_the_proof(
    before: BridgePoolRelay,
    event: Event,
    after: BridgePoolRelay,
    action: Action,
)
    requires
        advanced(before, event, after, action),
        action is TransferToErc,
    ensures
        before.phase is ParsingProof,
        event is PoolProof,
        after.phase is AwaitingConfirmation,
        forall|i: int|
            0 <= i < action->TransferToErc_args.signatures@.len() ==> {
                let v = (#[trigger] action->TransferToErc_args.signatures@[i]).v;
                v == 27 || v == 28
            },
{
}

} // verus!
