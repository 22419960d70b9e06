//! Parameters of the burnchains that the Stacks chain can be anchored to.
use crate::constants::{
    BITCOIN_CHAIN_NAME, BITCOIN_MAINNET_FIRST_BLOCK_HASH, BITCOIN_MAINNET_FIRST_BLOCK_HEIGHT,
    BITCOIN_MAINNET_FIRST_BLOCK_TIMESTAMP, BITCOIN_MAINNET_INITIAL_REWARD_START_BLOCK,
    BITCOIN_MAINNET_NAME, BITCOIN_NETWORK_ID_MAINNET, BITCOIN_NETWORK_ID_REGTEST,
    BITCOIN_NETWORK_ID_TESTNET, BITCOIN_REGTEST_FIRST_BLOCK_HASH,
    BITCOIN_REGTEST_FIRST_BLOCK_HEIGHT, BITCOIN_REGTEST_FIRST_BLOCK_TIMESTAMP,
    BITCOIN_REGTEST_NAME, BITCOIN_TESTNET_FIRST_BLOCK_HASH, BITCOIN_TESTNET_FIRST_BLOCK_HEIGHT,
    BITCOIN_TESTNET_FIRST_BLOCK_TIMESTAMP, BITCOIN_TESTNET_NAME,
};
use crate::hash::BurnchainHeaderHash;
use vstd::prelude::*;

verus! {

/// What a node has to know of a burnchain before it reads its first block.
#[derive(Debug, PartialEq, Clone)]
pub struct BurnchainParameters {
    chain_name: String,
    network_name: String,
    network_id: u32,
    stable_confirmations: u32,
    consensus_hash_lifetime: u32,
    pub first_block_height: u64,
    pub first_block_hash: BurnchainHeaderHash,
    pub first_block_timestamp: u32,
    pub initial_reward_start_block: u64,
}

/// The values of [`BurnchainParameters`].
pub ghost struct NetworkParameters {
    pub chain_name: Seq<char>,
    pub network_name: Seq<char>,
    pub network_id: u32,
    pub stable_confirmations: u32,
    pub consensus_hash_lifetime: u32,
    pub first_block_height: u64,
    pub first_block_hash: Seq<u8>,
    pub first_block_timestamp: u32,
    pub initial_reward_start_block: u64,
}

impl View for BurnchainParameters {
    type V = NetworkParameters;

    closed spec fn view(&self) -> NetworkParameters {
        NetworkParameters {
            chain_name: self.chain_name@,
            network_name: self.network_name@,
            network_id: self.network_id,
            stable_confirmations: self.stable_confirmations,
            consensus_hash_lifetime: self.consensus_hash_lifetime,
            first_block_height: self.first_block_height,
            first_block_hash: self.first_block_hash@,
            first_block_timestamp: self.first_block_timestamp,
            initial_reward_start_block: self.initial_reward_start_block,
        }
    }
}

/// The parameters of the bitcoin main network.
pub open spec fn mainnet() -> NetworkParameters {
    NetworkParameters {
        chain_name: BITCOIN_CHAIN_NAME@,
        network_name: BITCOIN_MAINNET_NAME@,
        network_id: BITCOIN_NETWORK_ID_MAINNET,
        stable_confirmations: 7,
        consensus_hash_lifetime: 24,
        first_block_height: BITCOIN_MAINNET_FIRST_BLOCK_HEIGHT,
        first_block_hash: crate::hex::hex_decode(BITCOIN_MAINNET_FIRST_BLOCK_HASH@),
        first_block_timestamp: BITCOIN_MAINNET_FIRST_BLOCK_TIMESTAMP,
        initial_reward_start_block: BITCOIN_MAINNET_INITIAL_REWARD_START_BLOCK,
    }
}

/// The parameters of the bitcoin test network.
pub open spec fn testnet() -> NetworkParameters {
    NetworkParameters {
        chain_name: BITCOIN_CHAIN_NAME@,
        network_name: BITCOIN_TESTNET_NAME@,
        network_id: BITCOIN_NETWORK_ID_TESTNET,
        stable_confirmations: 7,
        consensus_hash_lifetime: 24,
        first_block_height: BITCOIN_TESTNET_FIRST_BLOCK_HEIGHT,
        first_block_hash: crate::hex::hex_decode(BITCOIN_TESTNET_FIRST_BLOCK_HASH@),
        first_block_timestamp: BITCOIN_TESTNET_FIRST_BLOCK_TIMESTAMP,
        initial_reward_start_block: (BITCOIN_TESTNET_FIRST_BLOCK_HEIGHT - 10_000) as u64,
    }
}

/// The parameters of a local bitcoin network for regression tests.
pub open spec fn regtest() -> NetworkParameters {
    NetworkParameters {
        chain_name: BITCOIN_CHAIN_NAME@,
        network_name: BITCOIN_REGTEST_NAME@,
        network_id: BITCOIN_NETWORK_ID_REGTEST,
        stable_confirmations: 1,
        consensus_hash_lifetime: 24,
        first_block_height: BITCOIN_REGTEST_FIRST_BLOCK_HEIGHT,
        first_block_hash: crate::hex::hex_decode(BITCOIN_REGTEST_FIRST_BLOCK_HASH@),
        first_block_timestamp: BITCOIN_REGTEST_FIRST_BLOCK_TIMESTAMP,
        initial_reward_start_block: BITCOIN_REGTEST_FIRST_BLOCK_HEIGHT,
    }
}

/// The parameters known under a chain name and a network name, if there are any.
pub open spec fn known_parameters(chain: Seq<char>, network: Seq<char>) -> Option<
    NetworkParameters,
> {
    if chain != BITCOIN_CHAIN_NAME@ {
        None
    } else if network == BITCOIN_MAINNET_NAME@ {
        Some(mainnet())
    } else if network == BITCOIN_TESTNET_NAME@ {
        Some(testnet())
    } else if network == BITCOIN_REGTEST_NAME@ {
        Some(regtest())
    } else {
        None
    }
}

/// Whether `network_id` is that of a network without real value.
pub open spec fn is_test_network(network_id: u32) -> bool {
    network_id == BITCOIN_NETWORK_ID_TESTNET || network_id == BITCOIN_NETWORK_ID_REGTEST
}

/// Whether two texts hold the same characters.
fn same_text(a: &str, b: &str) -> (same: bool)
    ensures
        same == (a@ == b@),
{
    a.to_string() == b.to_string()
}

impl BurnchainParameters {
    /// The parameters of the given network of the given chain, if they are known.
    pub fn from_params(chain: &str, network: &str) -> (parameters: Option<BurnchainParameters>)
        ensures
            match parameters {
                Some(p) => known_parameters(chain@, network@) == Some(p@),
                None => known_parameters(chain@, network@) is None,
            },
    {
        if !same_text(chain, BITCOIN_CHAIN_NAME) {
            None
        } else if same_text(network, BITCOIN_MAINNET_NAME) {
            Some(BurnchainParameters::bitcoin_mainnet())
        } else if same_text(network, BITCOIN_TESTNET_NAME) {
            Some(BurnchainParameters::bitcoin_testnet())
        } else if same_text(network, BITCOIN_REGTEST_NAME) {
            Some(BurnchainParameters::bitcoin_regtest())
        } else {
            None
        }
    }

    /// The parameters of the bitcoin main network.
    pub fn bitcoin_mainnet() -> (parameters: BurnchainParameters)
        ensures
            parameters@ == mainnet(),
    {
        proof {
            reveal_strlit("0000000000000000000ab248c8e35c574514d052a83dbc12669e19bc43df486e");
        }
        BurnchainParameters {
            chain_name: BITCOIN_CHAIN_NAME.to_string(),
            network_name: BITCOIN_MAINNET_NAME.to_string(),
            network_id: BITCOIN_NETWORK_ID_MAINNET,
            stable_confirmations: 7,
            consensus_hash_lifetime: 24,
            first_block_height: BITCOIN_MAINNET_FIRST_BLOCK_HEIGHT,
            first_block_hash: BurnchainHeaderHash::from_hex(
                BITCOIN_MAINNET_FIRST_BLOCK_HASH,
            ).unwrap(),
            first_block_timestamp: BITCOIN_MAINNET_FIRST_BLOCK_TIMESTAMP,
            initial_reward_start_block: BITCOIN_MAINNET_INITIAL_REWARD_START_BLOCK,
        }
    }

    /// The parameters of the bitcoin test network.
    pub fn bitcoin_testnet() -> (parameters: BurnchainParameters)
        ensures
            parameters@ == testnet(),
    {
        proof {
            reveal_strlit("000000000000010dd0863ec3d7a0bae17c1957ae1de9cbcdae8e77aad33e3b8c");
        }
        BurnchainParameters {
            chain_name: BITCOIN_CHAIN_NAME.to_string(),
            network_name: BITCOIN_TESTNET_NAME.to_string(),
            network_id: BITCOIN_NETWORK_ID_TESTNET,
            stable_confirmations: 7,
            consensus_hash_lifetime: 24,
            first_block_height: BITCOIN_TESTNET_FIRST_BLOCK_HEIGHT,
            first_block_hash: BurnchainHeaderHash::from_hex(
                BITCOIN_TESTNET_FIRST_BLOCK_HASH,
            ).unwrap(),
            first_block_timestamp: BITCOIN_TESTNET_FIRST_BLOCK_TIMESTAMP,
            initial_reward_start_block: BITCOIN_TESTNET_FIRST_BLOCK_HEIGHT - 10_000,
        }
    }

    /// The parameters of a local bitcoin network for regression tests.
    pub fn bitcoin_regtest() -> (parameters: BurnchainParameters)
        ensures
            parameters@ == regtest(),
    {
        proof {
            reveal_strlit("0000000000000000000000000000000000000000000000000000000000000000");
        }
        BurnchainParameters {
            chain_name: BITCOIN_CHAIN_NAME.to_string(),
            network_name: BITCOIN_REGTEST_NAME.to_string(),
            network_id: BITCOIN_NETWORK_ID_REGTEST,
            stable_confirmations: 1,
            consensus_hash_lifetime: 24,
            first_block_height: BITCOIN_REGTEST_FIRST_BLOCK_HEIGHT,
            first_block_hash: BurnchainHeaderHash::from_hex(
                BITCOIN_REGTEST_FIRST_BLOCK_HASH,
            ).unwrap(),
            first_block_timestamp: BITCOIN_REGTEST_FIRST_BLOCK_TIMESTAMP,
            initial_reward_start_block: BITCOIN_REGTEST_FIRST_BLOCK_HEIGHT,
        }
    }

    /// Whether the network id is that of a network without real value.
    pub fn is_testnet(network_id: u32) -> (testing: bool)
        ensures
            testing == is_test_network(network_id),
    {
        match network_id {
            BITCOIN_NETWORK_ID_TESTNET | BITCOIN_NETWORK_ID_REGTEST => true,
            _ => false,
        }
    }
}

} // verus!
