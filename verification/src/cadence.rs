//! How many flashblocks make up a block, and the configuration that the
//! count is derived from.

use vstd::prelude::*;

verus! {

/// The number of whole flashblocks that fit in a block: none for a block time
/// of zero, else the block time divided by the interval, rounded down.
pub open spec fn flashblocks_in(block_time: nat, interval: nat) -> nat {
    if block_time == 0 {
        0
    } else {
        block_time / interval
    }
}

/// The number of whole flashblocks in a block of `block_time` milliseconds
/// when one is produced every `interval` milliseconds.
///
/// A remainder is dropped: a flashblock that would not fit is not scheduled.
pub fn flashblocks_per_block(block_time: u64, interval: u64) -> (count: u64)
    requires
        block_time == 0 || interval > 0,
    ensures
        count == flashblocks_in(block_time as nat, interval as nat),
{
    if block_time == 0 {
        return 0;
    }
    block_time / interval
}

/// Where the flashblock stream is served: an IPv4 or an IPv6 host.
#[derive(Clone, Copy, Debug, PartialEq, Eq)]
pub enum Host {
    /// An IPv4 host, by its four octets.
    V4([u8; 4]),
    /// An IPv6 host, by its sixteen octets.
    V6([u8; 16]),
}

/// The endpoint that listens for subscriptions to flashblock updates.
#[derive(Clone, Copy, Debug, PartialEq, Eq)]
pub struct ListenAddress {
    /// The host to bind to.
    pub host: Host,
    /// The port to bind to.
    pub port: u16,
}

/// Why a configuration was refused.
#[derive(Clone, Copy, Debug, PartialEq, Eq, Structural)]
pub enum ConfigError {
    /// The address of the flashblock endpoint is not an IP address.
    InvalidEndpointAddress,
    /// The leeway is longer than the flashblock interval.
    LeewayExceedsInterval {
        /// The leeway asked for, in milliseconds.
        leeway_time: u64,
        /// The flashblock interval, in milliseconds.
        interval: u64,
    },
}

/// The settings of the flashblock cadence as they were given, before they
/// are checked.
#[derive(Clone, Copy, Debug, PartialEq, Eq)]
pub struct FlashblocksArgs {
    /// The host of the flashblock endpoint, or `None` where what was given
    /// is not an IP address.
    pub flashblocks_addr: Option<Host>,
    /// The port of the flashblock endpoint.
    pub flashblocks_port: u16,
    /// How often a flashblock is produced, in milliseconds.
    pub flashblocks_block_time: u64,
    /// The time held back for latencies, in milliseconds.
    pub flashblocks_leeway_time: u64,
    /// Whether the number of flashblocks per block is fixed.
    pub flashblocks_fixed: bool,
}

/// Configuration values that are specific to the flashblocks builder.
#[derive(Clone, Copy, Debug, PartialEq, Eq)]
pub struct FlashblocksConfig {
    /// The address of the endpoint that listens for subscriptions to new
    /// flashblock updates.
    pub ws_addr: ListenAddress,
    /// How often a flashblock is produced, in milliseconds. This is
    /// independent of the block time of the chain.
    pub interval: u64,
    /// How much time is deducted from the first flashblock of a block to
    /// account for latencies, in milliseconds.
    pub leeway_time: u64,
    /// Disables the adjustment of the number of flashblocks to the arrival
    /// time of the trigger.
    pub fixed: bool,
}

impl FlashblocksConfig {
    /// Whether the leeway fits in one flashblock interval.
    pub open spec fn is_valid(&self) -> bool {
        self.leeway_time <= self.interval
    }

    /// The configuration that is used where none is given.
    pub open spec fn standard() -> FlashblocksConfig {
        FlashblocksConfig {
            ws_addr: ListenAddress { host: Host::V4([0u8, 0u8, 0u8, 0u8]), port: 1111 },
            interval: 250,
            leeway_time: 50,
            fixed: false,
        }
    }

    /// What `try_from` makes of the given settings.
    pub open spec fn checked(args: FlashblocksArgs) -> Result<FlashblocksConfig, ConfigError> {
        match args.flashblocks_addr {
            None => Err(ConfigError::InvalidEndpointAddress),
            Some(host) => if args.flashblocks_leeway_time > args.flashblocks_block_time {
                Err(
                    ConfigError::LeewayExceedsInterval {
                        leeway_time: args.flashblocks_leeway_time,
                        interval: args.flashblocks_block_time,
                    },
                )
            } else {
                Ok(
                    FlashblocksConfig {
                        ws_addr: ListenAddress { host, port: args.flashblocks_port },
                        interval: args.flashblocks_block_time,
                        leeway_time: args.flashblocks_leeway_time,
                        fixed: args.flashblocks_fixed,
                    },
                )
            },
        }
    }

    /// Checks the given settings and makes a configuration of them.
    ///
    /// Refused are an endpoint address that is no IP address, and a leeway
    /// that is longer than the flashblock interval.
    pub fn try_from(args: FlashblocksArgs) -> (outcome: Result<FlashblocksConfig, ConfigError>)
        ensures
            outcome == Self::checked(args),
            outcome is Ok ==> outcome->Ok_0.is_valid(),
    {
        let host = match args.flashblocks_addr {
            Some(host) => host,
            None => {
                return Err(ConfigError::InvalidEndpointAddress);
            },
        };
        if args.flashblocks_leeway_time > args.flashblocks_block_time {
            return Err(
                ConfigError::LeewayExceedsInterval {
                    leeway_time: args.flashblocks_leeway_time,
                    interval: args.flashblocks_block_time,
                },
            );
        }
        Ok(
            FlashblocksConfig {
                ws_addr: ListenAddress { host, port: args.flashblocks_port },
                interval: args.flashblocks_block_time,
                leeway_time: args.flashblocks_leeway_time,
                fixed: args.flashblocks_fixed,
            },
        )
    }
}

impl Default for FlashblocksConfig {
    fn default() -> (config: FlashblocksConfig)
        ensures
            config == FlashblocksConfig::standard(),
            config.is_valid(),
    {
        FlashblocksConfig {
            ws_addr: ListenAddress { host: Host::V4([0u8, 0u8, 0u8, 0u8]), port: 1111 },
            interval: 250,
            leeway_time: 50,
            fixed: false,
        }
    }
}

/// The settings that every builder has, with those of one kind of builder.
#[derive(Clone, Copy, Debug, PartialEq, Eq)]
pub struct BuilderConfig<Specific> {
    /// The block time of the chain, in milliseconds.
    pub block_time: u64,
    /// The settings of this kind of builder.
    pub specific: Specific,
}

/// What a configuration says of the flashblock cadence.
pub trait FlashBlocksConfigExt {
    /// The block time of the chain, in milliseconds.
    spec fn block_time_millis(&self) -> nat;

    /// The time between two flashblocks, in milliseconds.
    spec fn interval_millis(&self) -> nat;

    /// The number of whole flashblocks in one block.
    fn flashblocks_per_block(&self) -> (count: u64)
        requires
            self.block_time_millis() == 0 || self.interval_millis() > 0,
        ensures
            count == flashblocks_in(self.block_time_millis(), self.interval_millis()),
    ;
}

impl FlashBlocksConfigExt for BuilderConfig<FlashblocksConfig> {
    open spec fn block_time_millis(&self) -> nat {
        self.block_time as nat
    }

    open spec fn interval_millis(&self) -> nat {
        self.specific.interval as nat
    }

    fn flashblocks_per_block(&self) -> (count: u64) {
        flashblocks_per_block(self.block_time, self.specific.interval)
    }
}

/// The flashblocks of a block never take longer than the block: their
/// number times the interval is at most the block time, and one more would
/// not fit.
pub proof fn lemma_flashblocks_fit(block_time: nat, interval: nat)
    requires
        interval > 0,
    ensures
        flashblocks_in(block_time, interval) * interval <= block_time,
        block_time < (flashblocks_in(block_time, interval) + 1) * interval,
{
    let count = block_time / interval;
    assert(count * interval <= block_time && block_time < (count + 1) * interval)
        by (nonlinear_arith)
        requires
            interval > 0,
            count == block_time / interval,
    ;
}

} // verus!
