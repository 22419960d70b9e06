//! Fixed values of the supported networks.
use vstd::prelude::*;

verus! {

/// Name of the only supported burnchain.
pub const BITCOIN_CHAIN_NAME: &'static str = "bitcoin";

pub const BITCOIN_MAINNET_NAME: &'static str = "mainnet";

pub const BITCOIN_TESTNET_NAME: &'static str = "testnet";

pub const BITCOIN_REGTEST_NAME: &'static str = "regtest";

/// Magic numbers that open a message of the bitcoin peer protocol on each network.
pub const BITCOIN_NETWORK_ID_MAINNET: u32 = 0xD9B4BEF9;

pub const BITCOIN_NETWORK_ID_TESTNET: u32 = 0x0709110B;

pub const BITCOIN_NETWORK_ID_REGTEST: u32 = 0xDAB5BFFA;

/// First burn block that the Stacks chain looks at, on each network.
pub const BITCOIN_MAINNET_FIRST_BLOCK_HEIGHT: u64 = 666_050;

pub const BITCOIN_MAINNET_FIRST_BLOCK_TIMESTAMP: u32 = 1_610_643_248;

pub const BITCOIN_MAINNET_FIRST_BLOCK_HASH: &'static str =
    "0000000000000000000ab248c8e35c574514d052a83dbc12669e19bc43df486e";

pub const BITCOIN_MAINNET_INITIAL_REWARD_START_BLOCK: u64 = 651_389;

pub const BITCOIN_TESTNET_FIRST_BLOCK_HEIGHT: u64 = 2_000_000;

pub const BITCOIN_TESTNET_FIRST_BLOCK_TIMESTAMP: u32 = 1_622_691_840;

pub const BITCOIN_TESTNET_FIRST_BLOCK_HASH: &'static str =
    "000000000000010dd0863ec3d7a0bae17c1957ae1de9cbcdae8e77aad33e3b8c";

pub const BITCOIN_REGTEST_FIRST_BLOCK_HEIGHT: u64 = 0;

pub const BITCOIN_REGTEST_FIRST_BLOCK_TIMESTAMP: u32 = 0;

pub const BITCOIN_REGTEST_FIRST_BLOCK_HASH: &'static str =
    "0000000000000000000000000000000000000000000000000000000000000000";

/// Length of a reward cycle, and of the prepare phase that ends it, in burn blocks.
pub const POX_REWARD_CYCLE_LENGTH: u32 = 2100;

pub const POX_PREPARE_WINDOW_LENGTH: u32 = 100;

/// Distance from the first burn block to the start and to the end of the PoX sunset.
pub const POX_SUNSET_START: u64 = 100_000;

pub const POX_SUNSET_END: u64 = POX_SUNSET_START + 400_000;

/// Burn heights at which lockups of the first PoX contract are released.
pub const POX_V1_MAINNET_EARLY_UNLOCK_HEIGHT: u32 = 781_552;

pub const POX_V1_TESTNET_EARLY_UNLOCK_HEIGHT: u32 = 2_422_102;

/// Names of the first and of the second PoX contract.
pub const POX_1_NAME: &'static str = "pox";

pub const POX_2_NAME: &'static str = "pox-2";

/// Number of reward outputs that a block commit pays.
pub const OUTPUTS_PER_COMMIT: usize = 2;

/// How far a neighbor's view of the burnchain may lag behind the stable tip, in blocks.
pub const MAX_NEIGHBOR_BLOCK_DELAY: u64 = 288;

} // verus!
