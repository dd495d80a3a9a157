//! Transfers that wait in the bridge pool.

use vstd::prelude::*;
use crate::decimal::{decimal, decimal_text, law_decimal_round_trip, parse_u64, parsed_u64};

verus! {

/// An amount of tokens. In text it is always a decimal string, never a
/// number of the text format, so that no digit is lost on the way.
#[derive(Clone, Copy, Debug, Hash, PartialOrd, PartialEq, Ord, Eq)]
pub struct Amount(pub u64);

impl View for Amount {
    type V = u64;

    open spec fn view(&self) -> u64 {
        self.0
    }
}

impl Amount {
    /// The amount that a decimal string denotes, where it denotes one.
    pub fn from_decimal(text: &str) -> (r: Option<Amount>)
        ensures
            r == match parsed_u64(text@) {
                Some(v) => Some(Amount(v)),
                None => None,
            },
    {
        match parse_u64(text) {
            Some(v) => Some(Amount(v)),
            None => None,
        }
    }

    /// The decimal string of the amount, which reads back as the amount.
    pub fn to_decimal(&self) -> (s: String)
        ensures
            s@ == decimal_text(self@ as nat),
            parsed_u64(s@) == Some(self@),
    {
        proof {
            law_decimal_round_trip(self@ as nat);
        }
        decimal(self.0)
    }
}

/// A transfer message to be submitted to Ethereum to move assets across the
/// bridge.
#[derive(Clone, Debug, Hash, PartialOrd, PartialEq, Ord, Eq)]
pub struct TransferToEthereum {
    /// The type of token.
    pub asset: String,
    /// The recipient address.
    pub recipient: String,
    /// The sender of the transfer.
    pub sender: String,
    /// The amount to be transferred.
    pub amount: Amount,
}

/// The amount to be paid to the relayer of a transfer, to make up for the
/// gas spent on Ethereum.
#[derive(Clone, Debug, Hash, PartialOrd, PartialEq, Ord, Eq)]
pub struct GasFee {
    /// The amount of fees.
    pub amount: Amount,
    /// The account of the fee payer.
    pub payer: String,
}

/// A transfer to Ethereum that sits in the bridge pool and waits to be
/// relayed.
#[derive(Clone, Debug, Hash, PartialOrd, PartialEq, Ord, Eq)]
pub struct PendingTransfer {
    /// The message to send to Ethereum.
    pub transfer: TransferToEthereum,
    /// The gas fees paid by the user who sends this transfer.
    pub gas_fee: GasFee,
}

} // verus!
