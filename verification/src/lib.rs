//! Relay core of an Ethereum bridge relayer: typed ledger queries, strict
//! decoding of the ABI shapes they return, canonical signatures, and the
//! decisions of a relay attempt.

pub mod uint256;
pub mod signature;
pub mod abi;
pub mod error;
pub mod namada_queries;
pub mod relay;
pub mod types;
pub mod decimal;
pub mod text;
