use op_rbuilder::cadence::{
    flashblocks_per_block, BuilderConfig, ConfigError, FlashBlocksConfigExt, FlashblocksArgs,
    FlashblocksConfig, Host, ListenAddress,
};

fn args(leeway: u64, interval: u64) -> FlashblocksArgs {
    FlashblocksArgs {
        flashblocks_addr: Some(Host::V4([127, 0, 0, 1])),
        flashblocks_port: 1111,
        flashblocks_block_time: interval,
        flashblocks_leeway_time: leeway,
        flashblocks_fixed: true,
    }
}

#[test]
fn eight_flashblocks_in_a_two_second_block() {
    assert_eq!(flashblocks_per_block(2000, 250), 8);
}

#[test]
fn no_flashblocks_in_an_empty_block() {
    assert_eq!(flashblocks_per_block(0, 250), 0);
}

#[test]
fn zero_block_time_needs_no_interval() {
    assert_eq!(flashblocks_per_block(0, 0), 0);
}

#[test]
fn a_partial_flashblock_is_not_counted() {
    assert_eq!(flashblocks_per_block(300, 250), 1);
    assert_eq!(flashblocks_per_block(249, 250), 0);
    assert_eq!(flashblocks_per_block(499, 250), 1);
    assert_eq!(flashblocks_per_block(500, 250), 2);
}

#[test]
fn the_largest_block_time_does_not_overflow() {
    assert_eq!(flashblocks_per_block(u64::MAX, 1), u64::MAX);
    assert_eq!(flashblocks_per_block(u64::MAX, u64::MAX), 1);
}

#[test]
fn flashblocks_fit_in_the_block() {
    for (block_time, interval) in [(2000u64, 250u64), (300, 250), (1, 7), (1000, 333)] {
        let count = flashblocks_per_block(block_time, interval);
        assert!(count * interval <= block_time);
        assert!(block_time < (count + 1) * interval);
    }
}

#[test]
fn builder_config_counts_its_flashblocks() {
    let config = BuilderConfig { block_time: 2000, specific: FlashblocksConfig::default() };
    assert_eq!(config.flashblocks_per_block(), 8);
    let idle = BuilderConfig { block_time: 0, specific: FlashblocksConfig::default() };
    assert_eq!(idle.flashblocks_per_block(), 0);
}

#[test]
fn default_config_has_the_standard_values() {
    let config = FlashblocksConfig::default();
    assert_eq!(config.ws_addr, ListenAddress { host: Host::V4([0, 0, 0, 0]), port: 1111 });
    assert_eq!(config.interval, 250);
    assert_eq!(config.leeway_time, 50);
    assert!(!config.fixed);
}

#[test]
fn config_takes_over_valid_settings() {
    let config = FlashblocksConfig::try_from(args(50, 200)).unwrap();
    assert_eq!(config.ws_addr, ListenAddress { host: Host::V4([127, 0, 0, 1]), port: 1111 });
    assert_eq!(config.interval, 200);
    assert_eq!(config.leeway_time, 50);
    assert!(config.fixed);
}

#[test]
fn leeway_may_fill_the_whole_interval() {
    let config = FlashblocksConfig::try_from(args(200, 200)).unwrap();
    assert_eq!(config.leeway_time, 200);
}

#[test]
fn leeway_beyond_the_interval_is_refused() {
    assert_eq!(
        FlashblocksConfig::try_from(args(201, 200)),
        Err(ConfigError::LeewayExceedsInterval { leeway_time: 201, interval: 200 })
    );
}

#[test]
fn an_unparsed_endpoint_address_is_refused() {
    let mut given = args(50, 200);
    given.flashblocks_addr = None;
    assert_eq!(FlashblocksConfig::try_from(given), Err(ConfigError::InvalidEndpointAddress));
}

#[test]
fn the_address_is_checked_before_the_leeway() {
    let mut given = args(500, 200);
    given.flashblocks_addr = None;
    assert_eq!(FlashblocksConfig::try_from(given), Err(ConfigError::InvalidEndpointAddress));
}

#[test]
fn an_ipv6_endpoint_is_taken_over() {
    let mut given = args(0, 100);
    let mut octets = [0u8; 16];
    octets[15] = 1;
    given.flashblocks_addr = Some(Host::V6(octets));
    let config = FlashblocksConfig::try_from(given).unwrap();
    assert_eq!(config.ws_addr.host, Host::V6(octets));
}
