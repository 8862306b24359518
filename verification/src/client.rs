//! The auction endpoint and the client that runs build cycles against it.

use crate::cadence::ConfigError;
use crate::cycle::{Cycle, Stage, Step, StepModel};
use crate::deadline::{deadline_of, EARLIEST_TARGET_SECS};
use crate::identity::Address;
use vstd::prelude::*;

verus! {

/// The settings of the auction endpoint as they were given.
#[derive(Clone, Debug, PartialEq, Eq)]
pub struct PodArgs {
    /// The address of the auction's data provider.
    pub pod_rpc_url: String,
    /// The auction contract on the companion chain.
    pub pod_contract_address: Address,
}

/// Configuration values that are specific to the auction builder.
#[derive(Clone, Debug, PartialEq, Eq)]
pub struct Config {
    /// The address of the auction's data provider.
    pub rpc_url: String,
    /// The auction contract on the companion chain.
    pub contract_address: Address,
}

impl Config {
    /// Makes a configuration of the given settings. Both are taken as they
    /// are, so this never fails.
    pub fn try_from(args: PodArgs) -> (outcome: Result<Config, ConfigError>)
        ensures
            outcome is Ok,
            outcome->Ok_0.rpc_url@ == args.pod_rpc_url@,
            outcome->Ok_0.contract_address == args.pod_contract_address,
    {
        Ok(Config { rpc_url: args.pod_rpc_url, contract_address: args.pod_contract_address })
    }
}

/// Block building strategy that builds blocks using the auction that runs
/// on the companion chain, one block every chain block time.
#[derive(Clone, Copy, Debug, PartialEq, Eq)]
pub struct PodBuilder;

/// The builder's side of the auction: where the auction is, and the cycles
/// that are run against it. The connection itself belongs to the caller,
/// who creates it once, when a cycle first asks for it, and shares it.
pub struct PodClient {
    rpc_url: String,
    contract: Address,
}

impl PodClient {
    /// The address of the auction's data provider.
    pub closed spec fn spec_rpc_url(&self) -> Seq<char> {
        self.rpc_url@
    }

    /// The auction contract on the companion chain.
    pub closed spec fn spec_contract(&self) -> Address {
        self.contract
    }

    /// A client for the auction of `contract` at `rpc_url`. Nothing is
    /// connected yet, so this never fails.
    pub fn new(rpc_url: String, contract: Address) -> (outcome: Result<PodClient, ConfigError>)
        ensures
            outcome is Ok,
            outcome->Ok_0.spec_rpc_url() == rpc_url@,
            outcome->Ok_0.spec_contract() == contract,
    {
        Ok(PodClient { rpc_url, contract })
    }

    /// The address of the auction's data provider.
    pub fn rpc_url(&self) -> (url: &String)
        ensures
            url@ == self.spec_rpc_url(),
    {
        &self.rpc_url
    }

    /// The auction contract on the companion chain.
    pub fn contract(&self) -> (contract: Address)
        ensures
            contract == self.spec_contract(),
    {
        self.contract
    }

    /// Begins the cycle that finds the best transactions for the block with
    /// the given target time, in seconds. The cycle's bids are those settled
    /// two seconds before that time; the first thing it asks for is the
    /// auction client.
    pub fn best_transactions(&self, timestamp_secs: u64) -> (start: (Cycle, Step))
        requires
            timestamp_secs >= EARLIEST_TARGET_SECS,
        ensures
            start.0.stage == Stage::Connecting,
            start.0.deadline_secs == deadline_of(timestamp_secs as int),
            start.0.is_valid(),
            start.1@ == StepModel::Connect,
    {
        Cycle::begin(timestamp_secs)
    }
}

} // verus!
