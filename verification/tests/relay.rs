use bridge_relayer::abi::update_proof::ValidatorSetProof;
use bridge_relayer::abi::validator_set::ValidatorSetArgs;
use bridge_relayer::abi::words::{AbiDecodeError, AbiErrorKind};
use bridge_relayer::error::{
    InputDefect, LedgerFailure, QueryError, QueryKind, RelayError, ResponseDefect,
};
use bridge_relayer::namada_queries::{BridgePoolResponse, LedgerOutput};
use bridge_relayer::relay::bridge_pool::{select_transfers, BridgePoolPhase, BridgePoolRelay};
use bridge_relayer::relay::common::{
    canonicalize_all, conclude, Action, BPProofArgs, BridgePoolReleaseProof, ChainOutcome,
    Erc20Transfer, Event, RelayArgs, RelayConfig,
};
use bridge_relayer::relay::validator_set::{EpochConvention, ValidatorSetPhase, ValidatorSetRelay};
use bridge_relayer::signature::{Signature, HALF_ORDER, ORDER};
use bridge_relayer::types::{Amount, GasFee, PendingTransfer, TransferToEthereum};
use bridge_relayer::uint256::U256;

fn uint(x: u64) -> [u8; 32] {
    U256::from_u64(x).bytes
}

fn flatten(words: &[[u8; 32]]) -> Vec<u8> {
    let mut out = Vec::new();
    for w in words {
        out.extend_from_slice(w);
    }
    out
}

fn config() -> RelayConfig {
    RelayConfig {
        ledger_address: "127.0.0.1:26657".to_string(),
        base_dir: ".namada".to_string(),
        gas_limit: 600_000,
        confirmations: 3,
    }
}

fn strings(args: &[&str]) -> Vec<String> {
    args.iter().map(|s| s.to_string()).collect()
}

fn answered(bytes: &[u8]) -> Event {
    let stdout = format!("0x{}\n", hex::encode(bytes));
    Event::Ledger(LedgerOutput::Exited { code: Some(0), stdout: stdout.into_bytes() })
}

fn printed(text: &str) -> Event {
    Event::Ledger(LedgerOutput::Exited { code: Some(0), stdout: text.as_bytes().to_vec() })
}

fn failed(error: RelayError) -> Action {
    Action::Stop { result: Err(error) }
}

fn active_set(nonce: U256) -> (ValidatorSetArgs, Vec<u8>) {
    let set = ValidatorSetArgs {
        validators: vec![[0xaa; 20]],
        powers: vec![U256::from_u64(100)],
        nonce,
    };
    let mut address = [0u8; 32];
    address[12..].copy_from_slice(&[0xaa; 20]);
    let bytes = flatten(&[
        uint(32),
        uint(96),
        uint(160),
        nonce.bytes,
        uint(1),
        address,
        uint(1),
        uint(100),
    ]);
    (set, bytes)
}

fn high_s() -> [u8; 32] {
    let mut s = ORDER;
    s[31] -= 1;
    s
}

fn one() -> [u8; 32] {
    uint(1)
}

fn update_proof(parities: [u8; 2]) -> (ValidatorSetProof, Vec<u8>) {
    let proof = ValidatorSetProof {
        bridge_hash: [0x10; 32],
        governance_hash: [0x20; 32],
        signatures: vec![
            Signature { r: [1; 32], s: HALF_ORDER, v: parities[0] },
            Signature { r: [3; 32], s: high_s(), v: parities[1] },
        ],
    };
    let bytes = flatten(&[
        uint(32),
        [0x10; 32],
        [0x20; 32],
        uint(96),
        uint(2),
        [1; 32],
        HALF_ORDER,
        uint(parities[0] as u64),
        [3; 32],
        high_s(),
        uint(parities[1] as u64),
    ]);
    (proof, bytes)
}

fn pending(sender: &str) -> PendingTransfer {
    PendingTransfer {
        transfer: TransferToEthereum {
            asset: "0xasset".to_string(),
            recipient: "0xrecipient".to_string(),
            sender: sender.to_string(),
            amount: Amount(76),
        },
        gas_fee: GasFee { amount: Amount(1), payer: sender.to_string() },
    }
}

fn pool(entries: &[(&str, &str)]) -> BridgePoolResponse {
    BridgePoolResponse {
        bridge_pool_contents: entries
            .iter()
            .map(|(id, sender)| (id.to_string(), pending(sender)))
            .collect(),
    }
}

fn release_proof(parities: [u8; 2]) -> BridgePoolReleaseProof {
    BridgePoolReleaseProof {
        validators: vec![[0xaa; 20], [0xbb; 20]],
        powers: vec![U256::from_u64(1), U256::from_u64(2)],
        epoch: U256::from_u64(9),
        signatures: vec![
            Signature { r: [1; 32], s: one(), v: parities[0] },
            Signature { r: [3; 32], s: high_s(), v: parities[1] },
        ],
        transfers: vec![Erc20Transfer {
            data_digest: [9; 32],
            amount: U256::from_u64(76),
            from: [1; 20],
            to: [2; 20],
        }],
        pool_root: [0x55; 32],
        merkle_proof: vec![[6; 32], [7; 32]],
        merkle_proof_flags: vec![true, false],
        nonce: U256::from_u64(4),
        relayer_address: "atest1relayer".to_string(),
    }
}

#[test]
fn epoch_zero_is_refused_before_any_query() {
    for convention in [EpochConvention::Previous, EpochConvention::SecondPrevious] {
        let (state, action) = ValidatorSetRelay::begin(config(), convention, 0);
        assert_eq!(action, failed(RelayError::InvalidInput(InputDefect::InvalidEpoch)));
        assert_eq!(state.phase, ValidatorSetPhase::Finished);
    }
}

#[test]
fn epoch_one_and_above_ask_for_the_active_set() {
    let cases = [
        (EpochConvention::Previous, 1u64, "0"),
        (EpochConvention::Previous, 5, "4"),
        (EpochConvention::Previous, u64::MAX, "18446744073709551614"),
        (EpochConvention::SecondPrevious, 1, "0"),
        (EpochConvention::SecondPrevious, 2, "0"),
        (EpochConvention::SecondPrevious, 5, "3"),
    ];
    for (convention, epoch, reference) in cases {
        let (state, action) = ValidatorSetRelay::begin(config(), convention, epoch);
        assert_eq!(state.phase, ValidatorSetPhase::AwaitingActiveSet);
        assert_eq!(state.epoch, epoch);
        assert_eq!(
            action,
            Action::RunLedger {
                query: QueryKind::ActiveValidatorSet,
                arguments: strings(&[
                    "--base-dir",
                    ".namada",
                    "validator-set",
                    "active",
                    "--epoch",
                    reference,
                    "--ledger-address",
                    "127.0.0.1:26657"
                ]),
            }
        );
    }
}

#[test]
fn validator_set_relay_runs_to_confirmation() {
    let (set, set_bytes) = active_set(U256::from_u64(5));
    let (proof, proof_bytes) = update_proof([0, 0]);
    let (state, _) = ValidatorSetRelay::begin(config(), EpochConvention::SecondPrevious, 7);
    let (state, action) = state.advance(answered(&set_bytes));
    assert_eq!(state.phase, ValidatorSetPhase::AwaitingProof { active: set.clone() });
    assert_eq!(
        action,
        Action::RunLedger {
            query: QueryKind::ValidatorSetUpdateProof,
            arguments: strings(&[
                "--base-dir",
                ".namada",
                "validator-set",
                "proof",
                "--epoch",
                "7",
                "--ledger-address",
                "127.0.0.1:26657"
            ]),
        }
    );
    let (state, action) = state.advance(answered(&proof_bytes));
    assert_eq!(state.phase, ValidatorSetPhase::AwaitingConfirmation);
    assert_eq!(
        action,
        Action::UpdateValidatorsSet {
            args: RelayArgs {
                bridge_validators: set.validators,
                bridge_voting_powers: set.powers,
                bridge_current_epoch: U256::from_u64(5),
                next_active_epoch: U256::from_u64(7),
                next_bridge_validator_set_hash: proof.bridge_hash,
                next_governance_validator_set_hash: proof.governance_hash,
                proof: vec![
                    Signature { r: [1; 32], s: HALF_ORDER, v: 27 },
                    Signature { r: [3; 32], s: one(), v: 28 },
                ],
            },
            gas_limit: 600_000,
            confirmations: 3,
        }
    );
    let (state, action) = state.advance(Event::Chain(ChainOutcome::Confirmed));
    assert_eq!(state.phase, ValidatorSetPhase::Finished);
    assert_eq!(action, Action::Stop { result: Ok(()) });
}

#[test]
fn next_epoch_follows_the_convention() {
    let (_, set_bytes) = active_set(U256::from_u64(5));
    let (_, proof_bytes) = update_proof([1, 1]);
    let (state, _) = ValidatorSetRelay::begin(config(), EpochConvention::Previous, 9);
    let (state, _) = state.advance(answered(&set_bytes));
    let (_, action) = state.advance(answered(&proof_bytes));
    match action {
        Action::UpdateValidatorsSet { args, .. } => {
            assert_eq!(args.next_active_epoch, U256::from_u64(6));
            assert_eq!(args.bridge_current_epoch, U256::from_u64(5));
            assert_eq!(args.proof[0].v, 28);
            assert_eq!(args.proof[1].v, 27);
        },
        other => panic!("no contract call: {:?}", other),
    }
}

#[test]
fn nonce_without_a_successor_ends_the_attempt() {
    let (_, set_bytes) = active_set(U256 { bytes: [0xff; 32] });
    let (_, proof_bytes) = update_proof([0, 1]);
    let (state, _) = ValidatorSetRelay::begin(config(), EpochConvention::Previous, 9);
    let (state, _) = state.advance(answered(&set_bytes));
    let (state, action) = state.advance(answered(&proof_bytes));
    assert_eq!(state.phase, ValidatorSetPhase::Finished);
    assert_eq!(
        action,
        failed(RelayError::MalformedResponse {
            query: QueryKind::ValidatorSetUpdateProof,
            defect: ResponseDefect::NonceExhausted,
        })
    );
}

#[test]
fn ledger_that_exits_with_one_ends_the_attempt() {
    let (state, _) = ValidatorSetRelay::begin(config(), EpochConvention::Previous, 3);
    let event = Event::Ledger(LedgerOutput::Exited { code: Some(1), stdout: b"0x00".to_vec() });
    let (state, action) = state.advance(event);
    assert_eq!(state.phase, ValidatorSetPhase::Finished);
    assert_eq!(
        action,
        failed(RelayError::LedgerUnavailable {
            query: QueryKind::ActiveValidatorSet,
            failure: LedgerFailure::Exited { code: Some(1) },
        })
    );
    // Nothing brings a finished attempt to a contract call.
    let (state, action) = state.advance(Event::Chain(ChainOutcome::Confirmed));
    assert_eq!(state.phase, ValidatorSetPhase::Finished);
    assert_eq!(action, failed(RelayError::InvalidInput(InputDefect::UnexpectedEvent)));
}

#[test]
fn ledger_that_does_not_start_ends_the_attempt() {
    let (_, set_bytes) = active_set(U256::from_u64(1));
    let (state, _) = ValidatorSetRelay::begin(config(), EpochConvention::Previous, 3);
    let (state, _) = state.advance(answered(&set_bytes));
    let (state, action) = state.advance(Event::Ledger(LedgerOutput::NotStarted));
    assert_eq!(state.phase, ValidatorSetPhase::Finished);
    assert_eq!(
        action,
        failed(RelayError::LedgerUnavailable {
            query: QueryKind::ValidatorSetUpdateProof,
            failure: LedgerFailure::NotStarted,
        })
    );
}

#[test]
fn response_that_is_no_hex_ends_the_attempt() {
    let (state, _) = ValidatorSetRelay::begin(config(), EpochConvention::Previous, 3);
    let (state, action) = state.advance(printed("not-hex-data"));
    assert_eq!(state.phase, ValidatorSetPhase::Finished);
    assert_eq!(
        action,
        failed(RelayError::MalformedResponse {
            query: QueryKind::ActiveValidatorSet,
            defect: ResponseDefect::MissingHexPrefix,
        })
    );
}

#[test]
fn response_of_another_shape_ends_the_attempt() {
    let (_, set_bytes) = active_set(U256::from_u64(1));
    let (state, _) = ValidatorSetRelay::begin(config(), EpochConvention::Previous, 3);
    let (state, _) = state.advance(answered(&set_bytes));
    let (state, action) = state.advance(answered(&set_bytes));
    assert_eq!(state.phase, ValidatorSetPhase::Finished);
    assert_eq!(
        action,
        failed(RelayError::MalformedResponse {
            query: QueryKind::ValidatorSetUpdateProof,
            defect: ResponseDefect::Abi(AbiDecodeError {
                kind: AbiErrorKind::InvalidTuple,
                offset: 96,
            }),
        })
    );
}

#[test]
fn recovery_parity_other_than_a_bit_ends_the_attempt() {
    let (_, set_bytes) = active_set(U256::from_u64(1));
    let (_, proof_bytes) = update_proof([1, 27]);
    let (state, _) = ValidatorSetRelay::begin(config(), EpochConvention::SecondPrevious, 3);
    let (state, _) = state.advance(answered(&set_bytes));
    let (state, action) = state.advance(answered(&proof_bytes));
    assert_eq!(state.phase, ValidatorSetPhase::Finished);
    assert_eq!(
        action,
        failed(RelayError::MalformedResponse {
            query: QueryKind::ValidatorSetUpdateProof,
            defect: ResponseDefect::RecoveryParity { index: 1 },
        })
    );
}

#[test]
fn event_out_of_turn_ends_the_attempt() {
    let (state, _) = ValidatorSetRelay::begin(config(), EpochConvention::Previous, 3);
    let (state, action) = state.advance(Event::Chain(ChainOutcome::Confirmed));
    assert_eq!(state.phase, ValidatorSetPhase::Finished);
    assert_eq!(action, failed(RelayError::InvalidInput(InputDefect::UnexpectedEvent)));
    let (state, _) = BridgePoolRelay::begin(config(), None);
    let (state, action) = state.advance(Event::PoolProof(None));
    assert_eq!(state.phase, BridgePoolPhase::Finished);
    assert_eq!(action, failed(RelayError::InvalidInput(InputDefect::UnexpectedEvent)));
}

#[test]
fn fate_of_the_transaction_ends_the_attempt() {
    assert_eq!(conclude(ChainOutcome::Confirmed), Ok(()));
    assert_eq!(conclude(ChainOutcome::NotSubmitted), Err(RelayError::SubmissionFailed));
    assert_eq!(conclude(ChainOutcome::Unconfirmed), Err(RelayError::ConfirmationTimeout));
    for (outcome, result) in [
        (ChainOutcome::NotSubmitted, Err(RelayError::SubmissionFailed)),
        (ChainOutcome::Unconfirmed, Err(RelayError::ConfirmationTimeout)),
    ] {
        let (_, set_bytes) = active_set(U256::from_u64(1));
        let (_, proof_bytes) = update_proof([0, 1]);
        let (state, _) = ValidatorSetRelay::begin(config(), EpochConvention::SecondPrevious, 3);
        let (state, _) = state.advance(answered(&set_bytes));
        let (state, _) = state.advance(answered(&proof_bytes));
        let (state, action) = state.advance(Event::Chain(outcome));
        assert_eq!(state.phase, ValidatorSetPhase::Finished);
        assert_eq!(action, Action::Stop { result });
    }
}

#[test]
fn relay_error_names_the_query() {
    assert_eq!(
        RelayError::from_query(
            QueryKind::BridgePoolProof,
            QueryError::MalformedResponse(ResponseDefect::Json)
        ),
        RelayError::MalformedResponse {
            query: QueryKind::BridgePoolProof,
            defect: ResponseDefect::Json
        }
    );
    assert_eq!(
        RelayError::from_query(
            QueryKind::SignedBridgePool,
            QueryError::LedgerUnavailable(LedgerFailure::NotStarted)
        ),
        RelayError::LedgerUnavailable {
            query: QueryKind::SignedBridgePool,
            failure: LedgerFailure::NotStarted
        }
    );
}

#[test]
fn signatures_are_canonicalized_together() {
    let raw = vec![
        Signature { r: [1; 32], s: one(), v: 1 },
        Signature { r: [2; 32], s: high_s(), v: 1 },
    ];
    assert_eq!(
        canonicalize_all(&raw),
        Ok(vec![
            Signature { r: [1; 32], s: one(), v: 28 },
            Signature { r: [2; 32], s: one(), v: 27 },
        ])
    );
    assert_eq!(canonicalize_all(&vec![]), Ok(vec![]));
    let bad = vec![
        Signature { r: [1; 32], s: one(), v: 0 },
        Signature { r: [2; 32], s: one(), v: 2 },
        Signature { r: [3; 32], s: one(), v: 28 },
    ];
    assert_eq!(canonicalize_all(&bad), Err(1));
}

#[test]
fn pool_relay_asks_for_the_contents_first() {
    let (state, action) = BridgePoolRelay::begin(config(), None);
    assert_eq!(state.phase, BridgePoolPhase::AwaitingContents);
    assert_eq!(
        action,
        Action::RunLedger {
            query: QueryKind::SignedBridgePool,
            arguments: strings(&[
                "--base-dir",
                ".namada",
                "ethereum-bridge-pool",
                "query-signed",
                "--ledger-address",
                "127.0.0.1:26657"
            ]),
        }
    );
}

#[test]
fn pool_relay_runs_to_confirmation() {
    let (state, _) = BridgePoolRelay::begin(config(), None);
    let (state, action) = state.advance(printed("{\"bridge_pool_contents\":{}}\n"));
    assert_eq!(state.phase, BridgePoolPhase::ParsingContents);
    assert_eq!(
        action,
        Action::ParsePoolContents { document: "{\"bridge_pool_contents\":{}}".to_string() }
    );
    let contents = pool(&[("HASH1", "atest1alice"), ("HASH2", "atest1bob")]);
    let (state, action) = state.advance(Event::PoolContents(Some(contents)));
    assert_eq!(state.phase, BridgePoolPhase::AwaitingProof);
    assert_eq!(
        action,
        Action::RunLedger {
            query: QueryKind::BridgePoolProof,
            arguments: strings(&[
                "--base-dir",
                ".namada",
                "ethereum-bridge-pool",
                "construct-proof",
                "--relayer",
                "atest1alice",
                "--hash-list",
                "HASH1 HASH2",
                "--ledger-address",
                "127.0.0.1:26657"
            ]),
        }
    );
    let (state, action) =
        state.advance(printed("Ethereum ABI-encoded proof:\n {\"proof\":[1,2,3]}\n"));
    assert_eq!(state.phase, BridgePoolPhase::ParsingProof);
    assert_eq!(action, Action::ParsePoolProof { document: "{\"proof\":[1,2,3]}".to_string() });
    let proof = release_proof([0, 0]);
    let (state, action) = state.advance(Event::PoolProof(Some(proof.clone())));
    assert_eq!(state.phase, BridgePoolPhase::AwaitingConfirmation);
    assert_eq!(
        action,
        Action::TransferToErc {
            args: BPProofArgs {
                validators: proof.validators,
                voting_powers: proof.powers,
                epoch: proof.epoch,
                signatures: vec![
                    Signature { r: [1; 32], s: one(), v: 27 },
                    Signature { r: [3; 32], s: one(), v: 28 },
                ],
                transfers: proof.transfers,
                pool_root: proof.pool_root,
                proof: proof.merkle_proof,
                proof_flags: proof.merkle_proof_flags,
                nonce: proof.nonce,
                relayer_address: proof.relayer_address,
            },
            gas_limit: 600_000,
            confirmations: 3,
        }
    );
    let (state, action) = state.advance(Event::Chain(ChainOutcome::Unconfirmed));
    assert_eq!(state.phase, BridgePoolPhase::Finished);
    assert_eq!(action, failed(RelayError::ConfirmationTimeout));
}

#[test]
fn empty_pool_is_refused_before_any_proof_query() {
    let (state, _) = BridgePoolRelay::begin(config(), Some("atest1relayer".to_string()));
    let (state, _) = state.advance(printed("{\"bridge_pool_contents\":{}}"));
    let (state, action) = state.advance(Event::PoolContents(Some(pool(&[]))));
    assert_eq!(state.phase, BridgePoolPhase::Finished);
    assert_eq!(action, failed(RelayError::InvalidInput(InputDefect::NoTransfers)));
}

#[test]
fn relayer_that_is_named_is_taken() {
    let (state, _) = BridgePoolRelay::begin(config(), Some("atest1relayer".to_string()));
    let (state, _) = state.advance(printed("{}"));
    let (state, action) =
        state.advance(Event::PoolContents(Some(pool(&[("HASH1", "atest1alice")]))));
    assert_eq!(state.relayer, Some("atest1relayer".to_string()));
    match action {
        Action::RunLedger { query, arguments } => {
            assert_eq!(query, QueryKind::BridgePoolProof);
            assert_eq!(arguments[4], "--relayer");
            assert_eq!(arguments[5], "atest1relayer");
            assert_eq!(arguments[7], "HASH1");
        },
        other => panic!("no query: {:?}", other),
    }
}

#[test]
fn all_transfers_are_selected() {
    assert_eq!(select_transfers(&pool(&[])), strings(&[]));
    assert_eq!(
        select_transfers(&pool(&[("b", "x"), ("a", "y"), ("c", "z")])),
        strings(&["b", "a", "c"])
    );
}

#[test]
fn documents_of_another_shape_end_the_attempt() {
    let (state, _) = BridgePoolRelay::begin(config(), None);
    let (state, _) = state.advance(printed("[]"));
    let (state, action) = state.advance(Event::PoolContents(None));
    assert_eq!(state.phase, BridgePoolPhase::Finished);
    assert_eq!(
        action,
        failed(RelayError::MalformedResponse {
            query: QueryKind::SignedBridgePool,
            defect: ResponseDefect::Json,
        })
    );
    let (state, _) = BridgePoolRelay::begin(config(), None);
    let (state, _) = state.advance(printed("{}"));
    let (state, _) = state.advance(Event::PoolContents(Some(pool(&[("H", "s")]))));
    let (state, _) = state.advance(printed("{}"));
    let (state, action) = state.advance(Event::PoolProof(None));
    assert_eq!(state.phase, BridgePoolPhase::Finished);
    assert_eq!(
        action,
        failed(RelayError::MalformedResponse {
            query: QueryKind::BridgePoolProof,
            defect: ResponseDefect::Json,
        })
    );
}

#[test]
fn pool_relay_stops_on_ledger_failure() {
    let (state, _) = BridgePoolRelay::begin(config(), None);
    let event = Event::Ledger(LedgerOutput::Exited { code: Some(1), stdout: vec![] });
    let (state, action) = state.advance(event);
    assert_eq!(state.phase, BridgePoolPhase::Finished);
    assert_eq!(
        action,
        failed(RelayError::LedgerUnavailable {
            query: QueryKind::SignedBridgePool,
            failure: LedgerFailure::Exited { code: Some(1) },
        })
    );
    let (state, _) = BridgePoolRelay::begin(config(), None);
    let (state, _) = state.advance(printed("{}"));
    let (state, _) = state.advance(Event::PoolContents(Some(pool(&[("H", "s")]))));
    let (state, action) = state.advance(Event::Ledger(LedgerOutput::NotStarted));
    assert_eq!(state.phase, BridgePoolPhase::Finished);
    assert_eq!(
        action,
        failed(RelayError::LedgerUnavailable {
            query: QueryKind::BridgePoolProof,
            failure: LedgerFailure::NotStarted,
        })
    );
}

#[test]
fn pool_proof_with_a_bad_parity_ends_the_attempt() {
    let (state, _) = BridgePoolRelay::begin(config(), None);
    let (state, _) = state.advance(printed("{}"));
    let (state, _) = state.advance(Event::PoolContents(Some(pool(&[("H", "s")]))));
    let (state, _) = state.advance(printed("{}"));
    let (state, action) = state.advance(Event::PoolProof(Some(release_proof([5, 0]))));
    assert_eq!(state.phase, BridgePoolPhase::Finished);
    assert_eq!(
        action,
        failed(RelayError::MalformedResponse {
            query: QueryKind::BridgePoolProof,
            defect: ResponseDefect::RecoveryParity { index: 0 },
        })
    );
}

#[test]
fn pool_takes_each_identifier_once() {
    let entries = pool(&[("b", "x"), ("a", "y")]).bridge_pool_contents;
    assert_eq!(
        BridgePoolResponse::new(entries.clone()),
        Some(BridgePoolResponse { bridge_pool_contents: entries })
    );
    assert_eq!(BridgePoolResponse::new(vec![]), Some(pool(&[])));
    let twice = pool(&[("a", "x"), ("b", "y"), ("a", "z")]).bridge_pool_contents;
    assert_eq!(BridgePoolResponse::new(twice), None);
}
