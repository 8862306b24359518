//! What the builder reports while it works. The decision logic returns its
//! diagnostics as values; the caller hands them to whatever logs.

use crate::amount::Amount;
use crate::identity::{Address, TxHash};
use vstd::prelude::*;

verus! {

/// One report of something that was absorbed rather than failed on.
#[derive(Clone, Copy, Debug, PartialEq, Eq)]
pub enum Diagnostic {
    /// A bid's payload did not decode; the bid was dropped.
    UndecodablePayload {
        /// The amount of the dropped bid.
        amount: Amount,
    },
    /// A transaction declares another priority fee than its bid's amount;
    /// the transaction was kept.
    FeeMismatch {
        /// The hash of the transaction.
        hash: TxHash,
        /// The priority fee that the transaction declares.
        declared_fee: u128,
        /// The amount of the bid.
        amount: Amount,
    },
    /// The auction provider could not be asked; the cycle goes on without bids.
    ProviderUnreachable,
    /// A transaction was reported as not includable.
    MarkedInvalid {
        /// The sender of the rejected transaction.
        sender: Address,
        /// The nonce of the rejected transaction.
        nonce: u64,
        /// How many waiting transactions were withdrawn with it.
        withdrawn: usize,
    },
}

} // verus!
