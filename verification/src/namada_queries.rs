//! Queries to the ledger: the command line of each, and what its response
//! means. Running the ledger process is left to the caller, who hands its
//! output back.

use vstd::prelude::*;
use vstd::string::{StringExecFns, StringSliceAdditionalSpecFns};
use vstd::utf8::{decode_utf8, encode_utf8, valid_utf8};
use crate::abi::update_proof::{
    decode_validator_set_proof, encode_proof, law_proof_encoding_injective, law_proof_round_trip,
    lemma_proof_length, proof_defect, proof_encodable, ValidatorSetProof, ValidatorSetProofView,
};
use crate::abi::validator_set::{
    decode_validator_set, encode_validator_set, law_validator_set_encoding_injective,
    law_validator_set_round_trip, validator_set_defect, ValidatorSet, ValidatorSetArgs,
};
use crate::uint256::{lemma_pow256_32, pow256};
use crate::decimal::{decimal, decimal_text};
use crate::error::{LedgerFailure, QueryError, ResponseDefect};
use crate::text::{hex_decode, hex_decoded, strip_prefix, trim, trimmed, utf8_text, HexDefect};
use crate::types::PendingTransfer;

verus! {

/// The address at which the ledger listens unless another is given.
pub const LEDGER_ADDRESS: &'static str = "127.0.0.1:26657";

/// The directory of the ledger's state unless another is given.
pub const BASE_DIR: &'static str = ".namada";

/// The line that the ledger prints before a bridge pool proof.
pub const PROOF_PREAMBLE: &'static str = "Ethereum ABI-encoded proof:\n ";

/// Query to the active set of validators at some epoch.
#[derive(Clone, Debug, PartialEq, Eq)]
pub struct ActiveValidatorSet {
    pub epoch: Option<u64>,
}

/// Query to a proof of the active set of validators at some epoch.
#[derive(Clone, Debug, PartialEq, Eq)]
pub struct ValidatorSetUpdateProof {
    pub epoch: Option<u64>,
}

/// Query to the transfers in the bridge pool that a signed Merkle root
/// covers.
#[derive(Clone, Debug, PartialEq, Eq)]
pub struct ProvableBridgePoolContents {}

/// Query to construct a Merkle proof of a given set of transfers in the
/// bridge pool.
#[derive(Clone, Debug, PartialEq, Eq)]
pub struct BridgePoolProof {
    pub hashes: Vec<String>,
    pub relayer: String,
}

/// The transfers in the bridge pool, each under its identifier, in the order
/// in which the response lists them.
#[derive(Clone, Debug, PartialEq, Eq)]
pub struct BridgePoolResponse {
    pub bridge_pool_contents: Vec<(String, PendingTransfer)>,
}

/// A query together with where the ledger is to be found.
#[derive(Clone, Debug, PartialEq, Eq)]
pub struct QueryExecutor<K> {
    pub query: K,
    pub ledger_address: String,
    pub base_dir: String,
}

/// What running the ledger process gave.
#[derive(Clone, Debug, PartialEq, Eq)]
pub enum LedgerOutput {
    /// The process did not start.
    NotStarted,
    /// The process ran and ended, with this exit code, if it had one, and
    /// this standard output.
    Exited { code: Option<i32>, stdout: Vec<u8> },
}

impl BridgePoolResponse {
    /// The identifier of the `i`-th transfer.
    pub open spec fn identifier(&self, i: int) -> Seq<char> {
        self.bridge_pool_contents@[i].0@
    }

    /// Whether every transfer has an identifier of its own.
    pub open spec fn well_formed(&self) -> bool {
        forall|i: int, j: int|
            0 <= i < j < self.bridge_pool_contents@.len() ==> #[trigger] self.identifier(i)
                != #[trigger] self.identifier(j)
    }

    /// The pool of these transfers, where each has an identifier of its own.
    pub fn new(entries: Vec<(String, PendingTransfer)>) -> (r: Option<BridgePoolResponse>)
        ensures
            match r {
                Some(pool) => pool.bridge_pool_contents == entries && pool.well_formed(),
                None => !(BridgePoolResponse { bridge_pool_contents: entries }).well_formed(),
            },
    {
        let ghost whole = BridgePoolResponse { bridge_pool_contents: entries };
        let mut j: usize = 0;
        while j < entries.len()
            invariant
                0 <= j <= entries.len(),
                whole.bridge_pool_contents == entries,
                forall|a: int, b: int|
                    0 <= a < b < j ==> #[trigger] whole.identifier(a)
                        != #[trigger] whole.identifier(b),
            decreases entries.len() - j,
        {
            let mut i: usize = 0;
            while i < j
                invariant
                    0 <= i <= j < entries.len(),
                    whole.bridge_pool_contents == entries,
                    forall|a: int|
                        0 <= a < i ==> #[trigger] whole.identifier(a) != whole.identifier(j as int),
                decreases j - i,
            {
                if entries[i].0 == entries[j].0 {
                    proof {
                        assert(whole.identifier(i as int) == whole.identifier(j as int));
                    }
                    return None;
                }
                i += 1;
            }
            j += 1;
        }
        Some(BridgePoolResponse { bridge_pool_contents: entries })
    }
}

/// The texts of a list of strings.
pub open spec fn texts(v: Seq<String>) -> Seq<Seq<char>> {
    v.map_values(|s: String| s@)
}

/// The arguments of a validator-set command.
pub open spec fn validator_set_arguments(
    base_dir: Seq<char>,
    ledger_address: Seq<char>,
    command: Seq<char>,
    epoch: Option<u64>,
) -> Seq<Seq<char>> {
    seq!["--base-dir"@, base_dir, "validator-set"@, command] + (match epoch {
        Some(e) => seq!["--epoch"@, decimal_text(e as nat)],
        None => Seq::<Seq<char>>::empty(),
    }) + seq!["--ledger-address"@, ledger_address]
}

/// The arguments of a bridge-pool command.
pub open spec fn bridge_pool_arguments(
    base_dir: Seq<char>,
    ledger_address: Seq<char>,
    command: Seq<char>,
    extra: Seq<Seq<char>>,
) -> Seq<Seq<char>> {
    seq!["--base-dir"@, base_dir, "ethereum-bridge-pool"@, command] + extra + seq![
        "--ledger-address"@,
        ledger_address,
    ]
}

/// Identifiers one after the other, a space after each.
pub open spec fn spaced(ids: Seq<Seq<char>>) -> Seq<char>
    decreases ids.len(),
{
    if ids.len() == 0 {
        Seq::<char>::empty()
    } else {
        spaced(ids.drop_last()) + ids.last() + seq![' ']
    }
}

/// The text of a response: the standard output of a ledger process that
/// ended with code zero, as UTF-8, without the whitespace around it.
pub open spec fn response_text(output: LedgerOutput) -> Result<Seq<char>, QueryError> {
    match output {
        LedgerOutput::NotStarted => Err(QueryError::LedgerUnavailable(LedgerFailure::NotStarted)),
        LedgerOutput::Exited { code, stdout } => if code != Some(0i32) {
            Err(QueryError::LedgerUnavailable(LedgerFailure::Exited { code }))
        } else if !valid_utf8(stdout@) {
            Err(QueryError::MalformedResponse(ResponseDefect::InvalidUtf8))
        } else {
            Ok(trimmed(decode_utf8(stdout@)))
        },
    }
}

/// The bytes that a response text stands for: `0x`, then pairs of
/// hexadecimal digits.
pub open spec fn hex_payload_of(text: Seq<char>) -> Result<Seq<u8>, ResponseDefect> {
    if !seq!['0', 'x'].is_prefix_of(text) {
        Err(ResponseDefect::MissingHexPrefix)
    } else {
        match hex_decoded(encode_utf8(text.skip(2))) {
            Ok(bytes) => Ok(bytes),
            Err(e) => Err(ResponseDefect::InvalidHex(e)),
        }
    }
}

/// The JSON document of a response text: the text without the preamble
/// line, where it has one.
pub open spec fn json_document_of(text: Seq<char>) -> Seq<char> {
    if PROOF_PREAMBLE@.is_prefix_of(text) {
        text.skip(PROOF_PREAMBLE@.len() as int)
    } else {
        text
    }
}

/// Whether `res` is what a response text means for a query to the active
/// validator set.
pub open spec fn validator_set_answer(
    text: Seq<char>,
    res: Result<ValidatorSetArgs, QueryError>,
) -> bool {
    match hex_payload_of(text) {
        Err(d) => res == Err::<ValidatorSetArgs, QueryError>(QueryError::MalformedResponse(d)),
        Ok(bytes) => match validator_set_defect(bytes) {
            Some(e) => res == Err::<ValidatorSetArgs, QueryError>(
                QueryError::MalformedResponse(ResponseDefect::Abi(e)),
            ),
            None => res is Ok && res.unwrap().well_formed() && encode_validator_set(res.unwrap()@)
                == bytes,
        },
    }
}

/// Whether `res` is what a response text means for a query to a validator
/// set update proof.
pub open spec fn proof_answer(text: Seq<char>, res: Result<ValidatorSetProof, QueryError>) -> bool {
    match hex_payload_of(text) {
        Err(d) => res == Err::<ValidatorSetProof, QueryError>(QueryError::MalformedResponse(d)),
        Ok(bytes) => match proof_defect(bytes) {
            Some(e) => res == Err::<ValidatorSetProof, QueryError>(
                QueryError::MalformedResponse(ResponseDefect::Abi(e)),
            ),
            None => res is Ok && encode_proof(res.unwrap()@) == bytes,
        },
    }
}

/// A response text that stands for the encoding of a well-formed validator
/// set is answered with that set.
pub proof fn law_encoded_validator_set_is_answered(
    text: Seq<char>,
    res: Result<ValidatorSetArgs, QueryError>,
    set: ValidatorSet,
)
    requires
        set.well_formed(),
        hex_payload_of(text) == Ok::<Seq<u8>, ResponseDefect>(encode_validator_set(set)),
        validator_set_answer(text, res),
    ensures
        res is Ok,
        res.unwrap()@ == set,
{
    law_validator_set_round_trip(set);
    law_validator_set_encoding_injective(res.unwrap()@, set);
}

/// A response text that stands for the encoding of a proof is answered with
/// that proof.
pub proof fn law_encoded_proof_is_answered(
    text: Seq<char>,
    res: Result<ValidatorSetProof, QueryError>,
    proof: ValidatorSetProofView,
)
    requires
        proof_encodable(proof),
        hex_payload_of(text) == Ok::<Seq<u8>, ResponseDefect>(encode_proof(proof)),
        proof_answer(text, res),
    ensures
        res is Ok,
        res.unwrap()@ == proof,
{
    law_proof_round_trip(proof);
    let got = res.unwrap()@;
    assert(got.signatures.len() < pow256(32)) by {
        lemma_proof_length(got);
        lemma_proof_length(proof);
        lemma_pow256_32();
    }
    law_proof_encoding_injective(got, proof);
}

/// The text of a response, or why there is none.
pub fn read_response<'a>(output: &'a LedgerOutput) -> (r: Result<&'a str, QueryError>)
    ensures
        match r {
            Ok(t) => response_text(*output) == Ok::<Seq<char>, QueryError>(t@),
            Err(e) => response_text(*output) == Err::<Seq<char>, QueryError>(e),
        },
{
    match output {
        LedgerOutput::NotStarted => Err(QueryError::LedgerUnavailable(LedgerFailure::NotStarted)),
        LedgerOutput::Exited { code, stdout } => {
            match code {
                Some(c) => {
                    if *c != 0 {
                        return Err(
                            QueryError::LedgerUnavailable(LedgerFailure::Exited { code: *code }),
                        );
                    }
                },
                None => {
                    return Err(
                        QueryError::LedgerUnavailable(LedgerFailure::Exited { code: *code }),
                    );
                },
            }
            match utf8_text(stdout.as_slice()) {
                Some(raw) => {
                    proof {
                        vstd::utf8::encode_utf8_decode_utf8(raw@);
                    }
                    Ok(trim(raw))
                },
                None => Err(QueryError::MalformedResponse(ResponseDefect::InvalidUtf8)),
            }
        },
    }
}

/// The bytes that a response text stands for.
pub fn hex_payload(text: &str) -> (r: Result<Vec<u8>, ResponseDefect>)
    ensures
        match r {
            Ok(bytes) => hex_payload_of(text@) == Ok::<Seq<u8>, ResponseDefect>(bytes@),
            Err(d) => hex_payload_of(text@) == Err::<Seq<u8>, ResponseDefect>(d),
        },
{
    proof {
        reveal_strlit("0x");
        assert("0x"@ =~= seq!['0', 'x']);
    }
    match strip_prefix(text, "0x") {
        None => Err(ResponseDefect::MissingHexPrefix),
        Some(digits) => match hex_decode(digits.as_bytes()) {
            Ok(bytes) => Ok(bytes),
            Err(e) => Err(ResponseDefect::InvalidHex(e)),
        },
    }
}

/// The JSON document of a response text.
pub fn json_document<'a>(text: &'a str) -> (r: &'a str)
    ensures
        r@ == json_document_of(text@),
{
    match strip_prefix(text, PROOF_PREAMBLE) {
        Some(rest) => rest,
        None => text,
    }
}

/// The active validator set that a response text holds.
pub fn validator_set_from_text(text: &str) -> (res: Result<ValidatorSetArgs, QueryError>)
    ensures
        validator_set_answer(text@, res),
{
    match hex_payload(text) {
        Err(d) => Err(QueryError::MalformedResponse(d)),
        Ok(bytes) => match decode_validator_set(bytes.as_slice()) {
            Ok(v) => Ok(v),
            Err(e) => Err(QueryError::MalformedResponse(ResponseDefect::Abi(e))),
        },
    }
}

/// The validator set update proof that a response text holds.
pub fn proof_from_text(text: &str) -> (res: Result<ValidatorSetProof, QueryError>)
    ensures
        proof_answer(text@, res),
{
    match hex_payload(text) {
        Err(d) => Err(QueryError::MalformedResponse(d)),
        Ok(bytes) => match decode_validator_set_proof(bytes.as_slice()) {
            Ok(p) => Ok(p),
            Err(e) => Err(QueryError::MalformedResponse(ResponseDefect::Abi(e))),
        },
    }
}

impl<K> QueryExecutor<K> {
    /// The same query, to the ledger at `addr`.
    pub fn ledger_address(self, addr: String) -> (r: Self)
        ensures
            r.ledger_address == addr,
            r.base_dir == self.base_dir,
            r.query == self.query,
    {
        QueryExecutor { query: self.query, ledger_address: addr, base_dir: self.base_dir }
    }

    /// The same query, with the ledger's state under `dir`.
    pub fn base_dir(self, dir: String) -> (r: Self)
        ensures
            r.base_dir == dir,
            r.ledger_address == self.ledger_address,
            r.query == self.query,
    {
        QueryExecutor { query: self.query, ledger_address: self.ledger_address, base_dir: dir }
    }
}

impl QueryExecutor<ActiveValidatorSet> {
    /// Query the active set of validators, of the epoch that the ledger is
    /// in unless one is named.
    pub fn active_validator_set() -> (r: Self)
        ensures
            r.query.epoch is None,
            r.ledger_address@ == LEDGER_ADDRESS@,
            r.base_dir@ == BASE_DIR@,
    {
        QueryExecutor {
            query: ActiveValidatorSet { epoch: None },
            ledger_address: String::from_str(LEDGER_ADDRESS),
            base_dir: String::from_str(BASE_DIR),
        }
    }

    /// The same query, of the set of `epoch`.
    pub fn at_epoch(self, epoch: u64) -> (r: Self)
        ensures
            r.query.epoch == Some(epoch),
            r.ledger_address == self.ledger_address,
            r.base_dir == self.base_dir,
    {
        QueryExecutor {
            query: ActiveValidatorSet { epoch: Some(epoch) },
            ledger_address: self.ledger_address,
            base_dir: self.base_dir,
        }
    }
}

impl QueryExecutor<ValidatorSetUpdateProof> {
    /// Query a validator set update proof, of the epoch that the ledger is
    /// in unless one is named.
    pub fn validator_set_update_proof() -> (r: Self)
        ensures
            r.query.epoch is None,
            r.ledger_address@ == LEDGER_ADDRESS@,
            r.base_dir@ == BASE_DIR@,
    {
        QueryExecutor {
            query: ValidatorSetUpdateProof { epoch: None },
            ledger_address: String::from_str(LEDGER_ADDRESS),
            base_dir: String::from_str(BASE_DIR),
        }
    }

    /// The same query, of the proof for the set of `epoch`.
    pub fn at_epoch(self, epoch: u64) -> (r: Self)
        ensures
            r.query.epoch == Some(epoch),
            r.ledger_address == self.ledger_address,
            r.base_dir == self.base_dir,
    {
        QueryExecutor {
            query: ValidatorSetUpdateProof { epoch: Some(epoch) },
            ledger_address: self.ledger_address,
            base_dir: self.base_dir,
        }
    }
}

impl QueryExecutor<ProvableBridgePoolContents> {
    /// Query the transfers in the bridge pool that a signed root covers.
    pub fn signed_bridge_pool_transfers() -> (r: Self)
        ensures
            r.ledger_address@ == LEDGER_ADDRESS@,
            r.base_dir@ == BASE_DIR@,
    {
        QueryExecutor {
            query: ProvableBridgePoolContents {  },
            ledger_address: String::from_str(LEDGER_ADDRESS),
            base_dir: String::from_str(BASE_DIR),
        }
    }
}

impl QueryExecutor<BridgePoolProof> {
    /// Query a proof of transfers in the bridge pool: of none, and for no
    /// relayer, until they are named.
    pub fn bridge_pool_proof() -> (r: Self)
        ensures
            r.query.hashes@.len() == 0,
            r.query.relayer@.len() == 0,
            r.ledger_address@ == LEDGER_ADDRESS@,
            r.base_dir@ == BASE_DIR@,
    {
        QueryExecutor {
            query: BridgePoolProof { hashes: Vec::new(), relayer: String::new() },
            ledger_address: String::from_str(LEDGER_ADDRESS),
            base_dir: String::from_str(BASE_DIR),
        }
    }

    /// The same query, of the transfers with these identifiers.
    pub fn hashes(self, hashes: Vec<String>) -> (r: Self)
        ensures
            r.query.hashes == hashes,
            r.query.relayer == self.query.relayer,
            r.ledger_address == self.ledger_address,
            r.base_dir == self.base_dir,
    {
        QueryExecutor {
            query: BridgePoolProof { hashes, relayer: self.query.relayer },
            ledger_address: self.ledger_address,
            base_dir: self.base_dir,
        }
    }

    /// The same query, for the relayer with this address.
    pub fn with_relayer(self, relayer: String) -> (r: Self)
        ensures
            r.query.relayer == relayer,
            r.query.hashes == self.query.hashes,
            r.ledger_address == self.ledger_address,
            r.base_dir == self.base_dir,
    {
        QueryExecutor {
            query: BridgePoolProof { hashes: self.query.hashes, relayer },
            ledger_address: self.ledger_address,
            base_dir: self.base_dir,
        }
    }
}

/// Appends a copy of a text to a list of strings.
fn push_text(args: &mut Vec<String>, text: &str)
    ensures
        texts(final(args)@) == texts(old(args)@).push(text@),
{
    args.push(String::from_str(text));
    proof {
        assert(texts(args@) =~= texts(old(args)@).push(text@));
    }
}

/// The arguments of a validator-set command.
pub fn validator_set_command(
    base_dir: &str,
    ledger_address: &str,
    command: &str,
    epoch: Option<u64>,
) -> (args: Vec<String>)
    ensures
        texts(args@) == validator_set_arguments(base_dir@, ledger_address@, command@, epoch),
{
    let mut args: Vec<String> = Vec::new();
    proof {
        assert(texts(args@) =~= Seq::<Seq<char>>::empty());
    }
    push_text(&mut args, "--base-dir");
    push_text(&mut args, base_dir);
    push_text(&mut args, "validator-set");
    push_text(&mut args, command);
    match epoch {
        Some(e) => {
            push_text(&mut args, "--epoch");
            let digits = decimal(e);
            push_text(&mut args, digits.as_str());
        },
        None => {},
    }
    push_text(&mut args, "--ledger-address");
    push_text(&mut args, ledger_address);
    proof {
        assert(texts(args@) =~= validator_set_arguments(
            base_dir@,
            ledger_address@,
            command@,
            epoch,
        ));
    }
    args
}

/// The arguments of a bridge-pool command.
pub fn bridge_pool_command(
    base_dir: &str,
    ledger_address: &str,
    command: &str,
    extra: &Vec<String>,
) -> (args: Vec<String>)
    ensures
        texts(args@) == bridge_pool_arguments(base_dir@, ledger_address@, command@, texts(extra@)),
{
    let mut args: Vec<String> = Vec::new();
    proof {
        assert(texts(args@) =~= Seq::<Seq<char>>::empty());
    }
    push_text(&mut args, "--base-dir");
    push_text(&mut args, base_dir);
    push_text(&mut args, "ethereum-bridge-pool");
    push_text(&mut args, command);
    let ghost head = texts(args@);
    let mut i: usize = 0;
    while i < extra.len()
        invariant
            0 <= i <= extra.len(),
            texts(args@) == head + texts(extra@).take(i as int),
        decreases extra.len() - i,
    {
        push_text(&mut args, extra[i].as_str());
        proof {
            let next = extra@[i as int]@;
            assert(texts(extra@).take(i + 1) =~= texts(extra@).take(i as int).push(next));
        }
        i += 1;
    }
    proof {
        assert(texts(extra@).take(extra.len() as int) =~= texts(extra@));
    }
    push_text(&mut args, "--ledger-address");
    push_text(&mut args, ledger_address);
    proof {
        assert(texts(args@) =~= bridge_pool_arguments(
            base_dir@,
            ledger_address@,
            command@,
            texts(extra@),
        ));
    }
    args
}

/// Identifiers as one argument: a space after each, and the whole without
/// the whitespace around it.
pub fn hash_list(hashes: &Vec<String>) -> (s: String)
    ensures
        s@ == trimmed(spaced(texts(hashes@))),
{
    let mut acc = String::new();
    let mut i: usize = 0;
    proof {
        assert(texts(hashes@).take(0) =~= Seq::<Seq<char>>::empty());
    }
    while i < hashes.len()
        invariant
            0 <= i <= hashes.len(),
            acc@ == spaced(texts(hashes@).take(i as int)),
        decreases hashes.len() - i,
    {
        proof {
            reveal_strlit(" ");
            let next = texts(hashes@).take(i + 1);
            assert(next.drop_last() =~= texts(hashes@).take(i as int));
            assert(next.last() == hashes@[i as int]@);
            assert(" "@ =~= seq![' ']);
        }
        acc.append(hashes[i].as_str());
        acc.append(" ");
        i += 1;
    }
    proof {
        assert(texts(hashes@).take(hashes.len() as int) =~= texts(hashes@));
    }
    String::from_str(trim(acc.as_str()))
}

/// A query that the ledger answers: its command line, and what the output
/// of the ledger process means.
pub trait ExecuteQuery {
    /// Response data.
    type Response;

    /// The arguments that the ledger binary is run with.
    spec fn arguments(&self) -> Seq<Seq<char>>;

    /// Whether `res` is what `output` means as a response to this query.
    spec fn answers(&self, output: LedgerOutput, res: Result<Self::Response, QueryError>) -> bool;

    /// The arguments that the ledger binary is run with.
    fn command(&self) -> (args: Vec<String>)
        ensures
            texts(args@) == self.arguments(),
    ;

    /// The response that the output of the ledger process holds.
    fn execute_query(&self, output: &LedgerOutput) -> (res: Result<Self::Response, QueryError>)
        ensures
            self.answers(*output, res),
    ;
}

impl ExecuteQuery for QueryExecutor<ActiveValidatorSet> {
    type Response = ValidatorSetArgs;

    open spec fn arguments(&self) -> Seq<Seq<char>> {
        validator_set_arguments(self.base_dir@, self.ledger_address@, "active"@, self.query.epoch)
    }

    open spec fn answers(
        &self,
        output: LedgerOutput,
        res: Result<ValidatorSetArgs, QueryError>,
    ) -> bool {
        match response_text(output) {
            Err(e) => res == Err::<ValidatorSetArgs, QueryError>(e),
            Ok(text) => validator_set_answer(text, res),
        }
    }

    fn command(&self) -> (args: Vec<String>) {
        validator_set_command(
            self.base_dir.as_str(),
            self.ledger_address.as_str(),
            "active",
            self.query.epoch,
        )
    }

    fn execute_query(&self, output: &LedgerOutput) -> (res: Result<ValidatorSetArgs, QueryError>) {
        match read_response(output) {
            Err(e) => Err(e),
            Ok(text) => validator_set_from_text(text),
        }
    }
}

impl ExecuteQuery for QueryExecutor<ValidatorSetUpdateProof> {
    type Response = ValidatorSetProof;

    open spec fn arguments(&self) -> Seq<Seq<char>> {
        validator_set_arguments(self.base_dir@, self.ledger_address@, "proof"@, self.query.epoch)
    }

    open spec fn answers(
        &self,
        output: LedgerOutput,
        res: Result<ValidatorSetProof, QueryError>,
    ) -> bool {
        match response_text(output) {
            Err(e) => res == Err::<ValidatorSetProof, QueryError>(e),
            Ok(text) => proof_answer(text, res),
        }
    }

    fn command(&self) -> (args: Vec<String>) {
        validator_set_command(
            self.base_dir.as_str(),
            self.ledger_address.as_str(),
            "proof",
            self.query.epoch,
        )
    }

    fn execute_query(&self, output: &LedgerOutput) -> (res: Result<ValidatorSetProof, QueryError>) {
        match read_response(output) {
            Err(e) => Err(e),
            Ok(text) => proof_from_text(text),
        }
    }
}

impl ExecuteQuery for QueryExecutor<ProvableBridgePoolContents> {
    /// The JSON document that lists the pool's contents.
    type Response = String;

    open spec fn arguments(&self) -> Seq<Seq<char>> {
        bridge_pool_arguments(
            self.base_dir@,
            self.ledger_address@,
            "query-signed"@,
            Seq::<Seq<char>>::empty(),
        )
    }

    open spec fn answers(&self, output: LedgerOutput, res: Result<String, QueryError>) -> bool {
        match response_text(output) {
            Err(e) => res == Err::<String, QueryError>(e),
            Ok(text) => res is Ok && res.unwrap()@ == text,
        }
    }

    fn command(&self) -> (args: Vec<String>) {
        let extra: Vec<String> = Vec::new();
        proof {
            assert(texts(extra@) =~= Seq::<Seq<char>>::empty());
        }
        bridge_pool_command(
            self.base_dir.as_str(),
            self.ledger_address.as_str(),
            "query-signed",
            &extra,
        )
    }

    fn execute_query(&self, output: &LedgerOutput) -> (res: Result<String, QueryError>) {
        match read_response(output) {
            Err(e) => Err(e),
            Ok(text) => Ok(String::from_str(text)),
        }
    }
}

impl ExecuteQuery for QueryExecutor<BridgePoolProof> {
    /// The JSON document that holds the proof.
    type Response = String;

    open spec fn arguments(&self) -> Seq<Seq<char>> {
        bridge_pool_arguments(
            self.base_dir@,
            self.ledger_address@,
            "construct-proof"@,
            seq![
                "--relayer"@,
                self.query.relayer@,
                "--hash-list"@,
                trimmed(spaced(texts(self.query.hashes@))),
            ],
        )
    }

    open spec fn answers(&self, output: LedgerOutput, res: Result<String, QueryError>) -> bool {
        match response_text(output) {
            Err(e) => res == Err::<String, QueryError>(e),
            Ok(text) => res is Ok && res.unwrap()@ == json_document_of(text),
        }
    }

    fn command(&self) -> (args: Vec<String>) {
        let mut extra: Vec<String> = Vec::new();
        proof {
            assert(texts(extra@) =~= Seq::<Seq<char>>::empty());
        }
        push_text(&mut extra, "--relayer");
        push_text(&mut extra, self.query.relayer.as_str());
        push_text(&mut extra, "--hash-list");
        let list = hash_list(&self.query.hashes);
        push_text(&mut extra, list.as_str());
        proof {
            assert(texts(extra@) =~= seq![
                "--relayer"@,
                self.query.relayer@,
                "--hash-list"@,
                trimmed(spaced(texts(self.query.hashes@))),
            ]);
        }
        bridge_pool_command(
            self.base_dir.as_str(),
            self.ledger_address.as_str(),
            "construct-proof",
            &extra,
        )
    }

    fn execute_query(&self, output: &LedgerOutput) -> (res: Result<String, QueryError>) {
        match read_response(output) {
            Err(e) => Err(e),
            Ok(text) => Ok(String::from_str(json_document(text))),
        }
    }
}

} // verus!
