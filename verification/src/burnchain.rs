//! Blocks and state of a burnchain.
use crate::bitcoin::BitcoinBlock;
use crate::hash::BurnchainHeaderHash;
use crate::pox::PoxConstants;
use vstd::prelude::*;

verus! {

/// A block of one of the supported burnchains.
#[derive(Debug, PartialEq, Clone)]
pub enum BurnchainBlock {
    Bitcoin(BitcoinBlock),
}

/// The header of a burnchain block.
#[derive(Debug, PartialEq, Clone)]
pub struct BurnchainBlockHeader {
    pub block_height: u64,
    pub block_hash: BurnchainHeaderHash,
    pub parent_block_hash: BurnchainHeaderHash,
    pub num_txs: u64,
    pub timestamp: u64,
}

/// A burnchain as a node is set up to follow it.
#[derive(Debug, PartialEq, Clone)]
pub struct Burnchain {
    pub peer_version: u32,
    pub network_id: u32,
    pub chain_name: String,
    pub network_name: String,
    pub working_dir: String,
    pub consensus_hash_lifetime: u32,
    pub stable_confirmations: u32,
    pub first_block_height: u64,
    pub first_block_hash: BurnchainHeaderHash,
    pub first_block_timestamp: u32,
    pub pox_constants: PoxConstants,
    pub initial_reward_start_block: u64,
}

/// The burnchain block's encoded state transition:
/// -- the new burn distribution
/// -- the sequence of valid blockstack operations that went into it
/// -- the set of previously-accepted leader VRF keys consumed
#[derive(Debug, Clone)]
pub struct BurnchainStateTransition<Point, Operation, LeaderKey> {
    pub burn_dist: Vec<Point>,
    pub accepted_ops: Vec<Operation>,
    pub consumed_leader_keys: Vec<LeaderKey>,
}

/// The burnchain block's state transition's ops:
/// -- the sequence of valid blockstack operations that went into it
/// -- the set of previously-accepted leader VRF keys consumed
#[derive(Debug, Clone)]
pub struct BurnchainStateTransitionOps<Operation, LeaderKey> {
    pub accepted_ops: Vec<Operation>,
    pub consumed_leader_keys: Vec<LeaderKey>,
}

} // verus!
