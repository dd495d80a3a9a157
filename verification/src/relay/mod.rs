//! The decisions of a relay attempt. An attempt is a state machine: it is
//! handed what the outside world gave (the output of the ledger process, a
//! parsed document, the fate of a transaction) and answers with what to do
//! next. Whoever drives it performs the actions; nothing here waits.

pub mod bridge_pool;
pub mod common;
pub mod validator_set;
