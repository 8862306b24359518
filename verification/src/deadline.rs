//! The auction deadline of a build cycle, and the moment the builder waits
//! for before it asks for the bids of that deadline.

use vstd::prelude::*;

verus! {

/// The gap, in seconds, between a block's target time and the deadline of
/// the bids that count for it.
pub const AUCTION_MARGIN_SECS: u64 = 2;

/// What is taken off the deadline before the time oracle is asked, in
/// microseconds: the time that the oracle itself waits.
pub const ORACLE_WAIT_MICROS: u128 = 5_000_000;

/// What is added back after that, in microseconds.
pub const ORACLE_CORRECTION_MICROS: u128 = 200_000;

/// The number of microseconds in a second.
pub const MICROS_PER_SEC: u128 = 1_000_000;

/// The earliest block target time, in seconds, for which a cycle can run:
/// one whose deadline is not before the time that the oracle waits.
pub const EARLIEST_TARGET_SECS: u64 = 7;

/// The auction deadline, in seconds, of a block with the given target time.
pub open spec fn deadline_of(target_secs: int) -> int {
    target_secs - AUCTION_MARGIN_SECS
}

/// The moment, in microseconds, that real time must have passed before the
/// bids of the given deadline are asked for.
pub open spec fn wait_target_of(deadline_secs: int) -> int {
    deadline_secs * MICROS_PER_SEC - ORACLE_WAIT_MICROS + ORACLE_CORRECTION_MICROS
}

/// The auction deadline, in seconds, of a block with the given target time.
pub fn auction_deadline(target_secs: u64) -> (deadline_secs: u64)
    requires
        target_secs >= AUCTION_MARGIN_SECS,
    ensures
        deadline_secs == deadline_of(target_secs as int),
{
    target_secs - AUCTION_MARGIN_SECS
}

/// The moment, in microseconds, that the time oracle is asked to confirm
/// before the bids of the given deadline are fetched.
pub fn wait_target(deadline_secs: u64) -> (target_micros: u128)
    requires
        deadline_secs * MICROS_PER_SEC >= ORACLE_WAIT_MICROS,
    ensures
        target_micros == wait_target_of(deadline_secs as int),
{
    let deadline_micros: u128 = (deadline_secs as u128) * MICROS_PER_SEC;
    deadline_micros - ORACLE_WAIT_MICROS + ORACLE_CORRECTION_MICROS
}

} // verus!
