//! Transaction selection for an auction-driven flashblock builder.
//!
//! The crate holds the decision logic of one build cycle: the flashblock
//! cadence of a block, the auction deadline of a cycle, the ranking of
//! sealed bids, and the single-pass cursor that hands the chosen
//! transactions to the block assembler.

pub mod amount;
pub mod cadence;
pub mod client;
pub mod cursor;
pub mod cycle;
pub mod deadline;
pub mod diagnostics;
pub mod identity;
pub mod pipeline;
pub mod ranking;
pub mod transaction;
