//! Bitcoin transactions and blocks, as far as the Stacks chain reads them.
use crate::address::PoxAddress;
use crate::hash::{BurnchainHeaderHash, Txid};
use vstd::prelude::*;

verus! {

/// An input of a bitcoin transaction.
#[derive(Debug, Clone, Copy, PartialEq, Eq)]
pub struct BitcoinTxInput {
    /// The output that this input spends: a transaction and the index of its output.
    pub tx_ref: (Txid, u32),
}

impl BitcoinTxInput {
    /// The output that this input spends.
    pub fn tx_ref(&self) -> (spent: &(Txid, u32))
        ensures
            *spent == self.tx_ref,
    {
        &self.tx_ref
    }
}

/// An output of a bitcoin transaction.
#[derive(Debug, Clone, Copy, PartialEq, Eq)]
pub struct BitcoinTxOutput {
    /// The address that the output pays, where its script is one that can be decoded.
    pub address: Option<PoxAddress>,
    /// The amount that the output pays.
    pub units: u64,
}

/// A bitcoin transaction that carries an operation of the Stacks chain.
#[derive(Debug, PartialEq, Clone)]
pub struct BitcoinTransaction {
    pub txid: Txid,
    /// Place of the transaction in its block.
    pub vtxindex: u32,
    /// Code of the operation that the transaction carries.
    pub opcode: u8,
    /// Payload of the operation.
    pub data: Vec<u8>,
    /// Amount that the output with the payload destroys.
    pub data_amt: u64,
    pub inputs: Vec<BitcoinTxInput>,
    pub outputs: Vec<BitcoinTxOutput>,
}

/// A bitcoin block with the transactions that matter to the Stacks chain.
#[derive(Debug, PartialEq, Clone)]
pub struct BitcoinBlock {
    pub block_height: u64,
    pub block_hash: BurnchainHeaderHash,
    pub parent_block_hash: BurnchainHeaderHash,
    pub txs: Vec<BitcoinTransaction>,
    pub timestamp: u64,
}

} // verus!
