use bridge_relayer::abi::update_proof::ValidatorSetProof;
use bridge_relayer::abi::validator_set::ValidatorSetArgs;
use bridge_relayer::abi::words::{AbiDecodeError, AbiErrorKind};
use bridge_relayer::error::{LedgerFailure, QueryError, ResponseDefect};
use bridge_relayer::namada_queries::{
    hash_list, hex_payload, json_document, proof_from_text, read_response,
    validator_set_from_text, ActiveValidatorSet, ExecuteQuery, LedgerOutput, QueryExecutor,
    BASE_DIR, LEDGER_ADDRESS,
};
use bridge_relayer::signature::Signature;
use bridge_relayer::text::{strip_prefix, HexDefect};
use bridge_relayer::uint256::U256;

fn uint(x: u64) -> [u8; 32] {
    U256::from_u64(x).bytes
}

fn flatten(words: &[[u8; 32]]) -> Vec<u8> {
    let mut out = Vec::new();
    for w in words {
        out.extend_from_slice(w);
    }
    out
}

fn one_validator() -> (ValidatorSetArgs, Vec<u8>) {
    let set = ValidatorSetArgs {
        validators: vec![[0xaa; 20]],
        powers: vec![U256::from_u64(100)],
        nonce: U256::from_u64(5),
    };
    let mut address = [0u8; 32];
    address[12..].copy_from_slice(&[0xaa; 20]);
    let bytes =
        flatten(&[uint(32), uint(96), uint(160), uint(5), uint(1), address, uint(1), uint(100)]);
    (set, bytes)
}

fn exited(code: i32, stdout: &[u8]) -> LedgerOutput {
    LedgerOutput::Exited { code: Some(code), stdout: stdout.to_vec() }
}

fn strings(args: &[&str]) -> Vec<String> {
    args.iter().map(|s| s.to_string()).collect()
}

#[test]
fn builders_start_from_the_defaults() {
    let q = QueryExecutor::active_validator_set();
    assert_eq!(q.query, ActiveValidatorSet { epoch: None });
    assert_eq!(q.ledger_address, LEDGER_ADDRESS);
    assert_eq!(q.base_dir, BASE_DIR);
    assert_eq!(LEDGER_ADDRESS, "127.0.0.1:26657");
    assert_eq!(BASE_DIR, ".namada");
    let q = QueryExecutor::validator_set_update_proof();
    assert_eq!(q.query.epoch, None);
    let q = QueryExecutor::bridge_pool_proof();
    assert!(q.query.hashes.is_empty());
    assert_eq!(q.query.relayer, "");
    let q = QueryExecutor::signed_bridge_pool_transfers();
    assert_eq!(q.ledger_address, LEDGER_ADDRESS);
}

#[test]
fn builders_set_one_field_each() {
    let q = QueryExecutor::active_validator_set()
        .ledger_address("10.0.0.1:1".to_string())
        .base_dir("state".to_string())
        .at_epoch(9);
    assert_eq!(q.query.epoch, Some(9));
    assert_eq!(q.ledger_address, "10.0.0.1:1");
    assert_eq!(q.base_dir, "state");
    let q = QueryExecutor::validator_set_update_proof().at_epoch(3).base_dir("d".to_string());
    assert_eq!(q.query.epoch, Some(3));
    assert_eq!(q.base_dir, "d");
    assert_eq!(q.ledger_address, LEDGER_ADDRESS);
    let q = QueryExecutor::bridge_pool_proof()
        .hashes(strings(&["a", "b"]))
        .with_relayer("r".to_string());
    assert_eq!(q.query.hashes, strings(&["a", "b"]));
    assert_eq!(q.query.relayer, "r");
}

#[test]
fn validator_set_commands() {
    assert_eq!(
        QueryExecutor::active_validator_set().at_epoch(7).command(),
        strings(&[
            "--base-dir",
            ".namada",
            "validator-set",
            "active",
            "--epoch",
            "7",
            "--ledger-address",
            "127.0.0.1:26657"
        ])
    );
    assert_eq!(
        QueryExecutor::active_validator_set().command(),
        strings(&[
            "--base-dir",
            ".namada",
            "validator-set",
            "active",
            "--ledger-address",
            "127.0.0.1:26657"
        ])
    );
    assert_eq!(
        QueryExecutor::validator_set_update_proof()
            .base_dir("/tmp/x".to_string())
            .ledger_address("host:1".to_string())
            .at_epoch(u64::MAX)
            .command(),
        strings(&[
            "--base-dir",
            "/tmp/x",
            "validator-set",
            "proof",
            "--epoch",
            "18446744073709551615",
            "--ledger-address",
            "host:1"
        ])
    );
}

#[test]
fn bridge_pool_commands() {
    assert_eq!(
        QueryExecutor::signed_bridge_pool_transfers().command(),
        strings(&[
            "--base-dir",
            ".namada",
            "ethereum-bridge-pool",
            "query-signed",
            "--ledger-address",
            "127.0.0.1:26657"
        ])
    );
    assert_eq!(
        QueryExecutor::bridge_pool_proof()
            .hashes(strings(&["AB", "CD", "EF"]))
            .with_relayer("atest1".to_string())
            .command(),
        strings(&[
            "--base-dir",
            ".namada",
            "ethereum-bridge-pool",
            "construct-proof",
            "--relayer",
            "atest1",
            "--hash-list",
            "AB CD EF",
            "--ledger-address",
            "127.0.0.1:26657"
        ])
    );
}

#[test]
fn hash_list_is_space_separated() {
    assert_eq!(hash_list(&strings(&[])), "");
    assert_eq!(hash_list(&strings(&["a"])), "a");
    assert_eq!(hash_list(&strings(&["a", "b"])), "a b");
    assert_eq!(hash_list(&strings(&[" a", "b\n"])), "a b");
}

#[test]
fn response_needs_exit_code_zero() {
    assert_eq!(
        read_response(&exited(1, b"0x00")),
        Err(QueryError::LedgerUnavailable(LedgerFailure::Exited { code: Some(1) }))
    );
    assert_eq!(
        read_response(&exited(-1, b"")),
        Err(QueryError::LedgerUnavailable(LedgerFailure::Exited { code: Some(-1) }))
    );
    assert_eq!(
        read_response(&LedgerOutput::Exited { code: None, stdout: b"0x00".to_vec() }),
        Err(QueryError::LedgerUnavailable(LedgerFailure::Exited { code: None }))
    );
    assert_eq!(
        read_response(&LedgerOutput::NotStarted),
        Err(QueryError::LedgerUnavailable(LedgerFailure::NotStarted))
    );
}

#[test]
fn response_needs_utf8() {
    assert_eq!(
        read_response(&exited(0, &[0x30, 0x78, 0xff])),
        Err(QueryError::MalformedResponse(ResponseDefect::InvalidUtf8))
    );
    assert_eq!(
        read_response(&exited(0, &[0xc3])),
        Err(QueryError::MalformedResponse(ResponseDefect::InvalidUtf8))
    );
    assert_eq!(
        read_response(&exited(0, &[0xc3, 0xa9, 0x20, 0xe2, 0x82, 0x41])),
        Err(QueryError::MalformedResponse(ResponseDefect::InvalidUtf8))
    );
    assert_eq!(
        read_response(&exited(0, &[0xed, 0xa0, 0x80])),
        Err(QueryError::MalformedResponse(ResponseDefect::InvalidUtf8))
    );
    assert_eq!(read_response(&exited(0, "0x\u{00e9}".as_bytes())), Ok("0x\u{00e9}"));
}

#[test]
fn response_is_trimmed() {
    assert_eq!(read_response(&exited(0, b"  0x00ff\n")), Ok("0x00ff"));
    assert_eq!(read_response(&exited(0, b"\t\r\n a b \n\n")), Ok("a b"));
    assert_eq!(read_response(&exited(0, b"")), Ok(""));
    assert_eq!(read_response(&exited(0, "\u{2003}x\u{00a0}".as_bytes())), Ok("x"));
}

#[test]
fn prefix_is_stripped() {
    assert_eq!(strip_prefix("0xab", "0x"), Some("ab"));
    assert_eq!(strip_prefix("0x", "0x"), Some(""));
    assert_eq!(strip_prefix("0", "0x"), None);
    assert_eq!(strip_prefix("", "0x"), None);
    assert_eq!(strip_prefix("abc", ""), Some("abc"));
    assert_eq!(strip_prefix("1xab", "0x"), None);
    assert_eq!(strip_prefix("\u{00e9}t\u{00e9}", "\u{00e9}"), Some("t\u{00e9}"));
}

#[test]
fn hex_payload_decodes_pairs() {
    assert_eq!(hex_payload("0x"), Ok(vec![]));
    assert_eq!(hex_payload("0x00ff10"), Ok(vec![0x00, 0xff, 0x10]));
    assert_eq!(hex_payload("0xAbCdEf"), Ok(vec![0xab, 0xcd, 0xef]));
    assert_eq!(hex_payload("0x0123456789"), Ok(vec![0x01, 0x23, 0x45, 0x67, 0x89]));
}

#[test]
fn hex_payload_needs_the_prefix() {
    assert_eq!(hex_payload("not-hex-data"), Err(ResponseDefect::MissingHexPrefix));
    assert_eq!(hex_payload(""), Err(ResponseDefect::MissingHexPrefix));
    assert_eq!(hex_payload("0"), Err(ResponseDefect::MissingHexPrefix));
    assert_eq!(hex_payload("00ff"), Err(ResponseDefect::MissingHexPrefix));
    assert_eq!(hex_payload("0X00"), Err(ResponseDefect::MissingHexPrefix));
    assert_eq!(hex_payload("\u{00e9}0"), Err(ResponseDefect::MissingHexPrefix));
}

#[test]
fn hex_payload_needs_hex_digits() {
    assert_eq!(hex_payload("0x123"), Err(ResponseDefect::InvalidHex(HexDefect::OddLength)));
    assert_eq!(
        hex_payload("0xzz"),
        Err(ResponseDefect::InvalidHex(HexDefect::InvalidDigit { index: 0 }))
    );
    assert_eq!(
        hex_payload("0x00g0"),
        Err(ResponseDefect::InvalidHex(HexDefect::InvalidDigit { index: 2 }))
    );
    assert_eq!(
        hex_payload("0x000 "),
        Err(ResponseDefect::InvalidHex(HexDefect::InvalidDigit { index: 3 }))
    );
    assert_eq!(
        hex_payload("0x0x00"),
        Err(ResponseDefect::InvalidHex(HexDefect::InvalidDigit { index: 1 }))
    );
    assert_eq!(
        hex_payload("0x\u{00e9}"),
        Err(ResponseDefect::InvalidHex(HexDefect::InvalidDigit { index: 0 }))
    );
    assert_eq!(hex_payload("0x0\u{00e9}"), Err(ResponseDefect::InvalidHex(HexDefect::OddLength)));
}

#[test]
fn json_document_loses_the_preamble() {
    assert_eq!(
        json_document("Ethereum ABI-encoded proof:\n {\"proof\":[1,2]}"),
        "{\"proof\":[1,2]}"
    );
    assert_eq!(json_document("{\"proof\":[1,2]}"), "{\"proof\":[1,2]}");
    assert_eq!(json_document("Ethereum ABI-encoded proof:\n"), "Ethereum ABI-encoded proof:\n");
    assert_eq!(json_document(""), "");
}

#[test]
fn active_validator_set_is_decoded_from_the_output() {
    let (set, bytes) = one_validator();
    let stdout = format!("0x{}\n", hex::encode(&bytes));
    let query = QueryExecutor::active_validator_set().at_epoch(4);
    assert_eq!(query.execute_query(&exited(0, stdout.as_bytes())), Ok(set.clone()));
    assert_eq!(validator_set_from_text(stdout.trim()), Ok(set));
}

#[test]
fn active_validator_set_needs_a_running_ledger() {
    let (_, bytes) = one_validator();
    let stdout = format!("0x{}", hex::encode(&bytes));
    let query = QueryExecutor::active_validator_set();
    assert_eq!(
        query.execute_query(&exited(1, stdout.as_bytes())),
        Err(QueryError::LedgerUnavailable(LedgerFailure::Exited { code: Some(1) }))
    );
}

#[test]
fn text_that_is_no_hex_is_a_malformed_response() {
    let query = QueryExecutor::active_validator_set();
    assert_eq!(
        query.execute_query(&exited(0, b"not-hex-data")),
        Err(QueryError::MalformedResponse(ResponseDefect::MissingHexPrefix))
    );
    let query = QueryExecutor::validator_set_update_proof();
    assert_eq!(
        query.execute_query(&exited(0, b"not-hex-data")),
        Err(QueryError::MalformedResponse(ResponseDefect::MissingHexPrefix))
    );
}

#[test]
fn bytes_of_another_shape_are_a_malformed_response() {
    let (_, bytes) = one_validator();
    let stdout = format!("0x{}", hex::encode(&bytes[..bytes.len() - 32]));
    assert_eq!(
        QueryExecutor::active_validator_set().execute_query(&exited(0, stdout.as_bytes())),
        Err(QueryError::MalformedResponse(ResponseDefect::Abi(AbiDecodeError {
            kind: AbiErrorKind::Truncated,
            offset: bytes.len() - 32,
        })))
    );
    let stdout = format!("0x{}", hex::encode(&bytes));
    assert_eq!(
        QueryExecutor::validator_set_update_proof().execute_query(&exited(0, stdout.as_bytes())),
        Err(QueryError::MalformedResponse(ResponseDefect::Abi(AbiDecodeError {
            kind: AbiErrorKind::InvalidTuple,
            offset: 96,
        })))
    );
}

#[test]
fn update_proof_is_decoded_from_the_output() {
    let proof = ValidatorSetProof {
        bridge_hash: [0x10; 32],
        governance_hash: [0x20; 32],
        signatures: vec![Signature { r: [1; 32], s: [2; 32], v: 1 }],
    };
    let bytes = flatten(&[
        uint(32),
        [0x10; 32],
        [0x20; 32],
        uint(96),
        uint(1),
        [1; 32],
        [2; 32],
        uint(1),
    ]);
    let stdout = format!(" 0x{} ", hex::encode(&bytes));
    assert_eq!(
        QueryExecutor::validator_set_update_proof().execute_query(&exited(0, stdout.as_bytes())),
        Ok(proof.clone())
    );
    assert_eq!(proof_from_text(stdout.trim()), Ok(proof));
}

#[test]
fn pool_queries_hand_out_the_document() {
    let contents = QueryExecutor::signed_bridge_pool_transfers();
    assert_eq!(
        contents.execute_query(&exited(0, b"{\"bridge_pool_contents\":{}}\n")),
        Ok("{\"bridge_pool_contents\":{}}".to_string())
    );
    assert_eq!(
        contents.execute_query(&exited(2, b"{}")),
        Err(QueryError::LedgerUnavailable(LedgerFailure::Exited { code: Some(2) }))
    );
    let proof = QueryExecutor::bridge_pool_proof();
    assert_eq!(
        proof.execute_query(&exited(0, b"Ethereum ABI-encoded proof:\n {\"proof\":[0]}\n")),
        Ok("{\"proof\":[0]}".to_string())
    );
    assert_eq!(
        proof.execute_query(&exited(0, b"{\"proof\":[0]}")),
        Ok("{\"proof\":[0]}".to_string())
    );
    assert_eq!(
        proof.execute_query(&exited(0, &[0xff])),
        Err(QueryError::MalformedResponse(ResponseDefect::InvalidUtf8))
    );
}
