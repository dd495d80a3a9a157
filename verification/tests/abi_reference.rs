use bridge_relayer::abi::triple::decode_signature;
use bridge_relayer::abi::update_proof::{decode_validator_set_proof, ValidatorSetProof};
use bridge_relayer::abi::validator_set::{decode_validator_set, ValidatorSetArgs};
use bridge_relayer::signature::Signature;
use bridge_relayer::uint256::U256;
use ethers::abi::{encode, Token};

fn uint(x: &U256) -> Token {
    Token::Uint(ethers::types::U256::from_big_endian(&x.bytes))
}

fn signature(sig: &Signature) -> Token {
    Token::Tuple(vec![
        Token::FixedBytes(sig.r.to_vec()),
        Token::FixedBytes(sig.s.to_vec()),
        Token::Uint(ethers::types::U256::from(sig.v)),
    ])
}

fn encoded_set(set: &ValidatorSetArgs) -> Vec<u8> {
    encode(&[Token::Tuple(vec![
        Token::Array(
            set.validators.iter().map(|a| Token::Address(ethers::types::H160(*a))).collect(),
        ),
        Token::Array(set.powers.iter().map(uint).collect()),
        uint(&set.nonce),
    ])])
}

fn encoded_proof(proof: &ValidatorSetProof) -> Vec<u8> {
    encode(&[Token::Tuple(vec![
        Token::FixedBytes(proof.bridge_hash.to_vec()),
        Token::FixedBytes(proof.governance_hash.to_vec()),
        Token::Array(proof.signatures.iter().map(signature).collect()),
    ])])
}

#[test]
fn validator_set_from_the_reference_encoder_decodes() {
    for n in 0..5u8 {
        let set = ValidatorSetArgs {
            validators: (0..n).map(|i| [0xa0 + i; 20]).collect(),
            powers: (0..n).map(|i| U256::from_u64(1000 * i as u64 + 1)).collect(),
            nonce: U256::from_u64(5 + n as u64),
        };
        assert_eq!(decode_validator_set(&encoded_set(&set)), Ok(set));
    }
}

#[test]
fn proof_from_the_reference_encoder_decodes() {
    for n in 0..5u8 {
        let proof = ValidatorSetProof {
            bridge_hash: [0x11; 32],
            governance_hash: [0x22; 32],
            signatures: (0..n).map(|i| Signature { r: [i; 32], s: [i + 1; 32], v: i % 2 }).collect(),
        };
        assert_eq!(decode_validator_set_proof(&encoded_proof(&proof)), Ok(proof));
    }
}

#[test]
fn signature_from_the_reference_encoder_decodes() {
    let sig = Signature { r: [0x0f; 32], s: [0xf0; 32], v: 1 };
    assert_eq!(decode_signature(&encode(&[signature(&sig)])), Ok(sig));
}
