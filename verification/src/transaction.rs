//! Transactions of any supported burnchain.
use crate::address::PoxAddress;
use crate::bitcoin::{BitcoinTransaction, BitcoinTxOutput};
use crate::hash::Txid;
use vstd::prelude::*;

verus! {

/// This is an opaque representation of the underlying burnchain-specific principal that signed
/// this transaction.  It may not even map to an address, given that even in "simple" VMs like
/// bitcoin script, the "signer" may be only a part of a complex script.
///
/// The purpose of this struct is to capture a loggable representation of a principal that signed
/// this transaction.  It's not meant for use with consensus-critical code.
#[derive(Debug, Clone, PartialEq, Eq)]
pub struct BurnchainSigner(pub String);

impl BurnchainSigner {
    /// The signer as it is shown to a reader.
    pub fn to_string(&self) -> (text: String)
        ensures
            text@ == self.0@,
    {
        self.0.clone()
    }
}

/// Someone who is paid by a burnchain transaction.
#[derive(Debug, PartialEq, Eq, Clone, Copy)]
pub struct BurnchainRecipient {
    pub address: PoxAddress,
    pub amount: u64,
}

impl BurnchainRecipient {
    /// The recipient that `output` pays, if its address is known.
    pub open spec fn of_output(output: BitcoinTxOutput) -> Option<BurnchainRecipient> {
        match output.address {
            Some(address) => Some(BurnchainRecipient { address, amount: output.units }),
            None => None,
        }
    }

    /// The recipient that a bitcoin output pays, if its address can be decoded.
    pub fn try_from_bitcoin_output(output: &BitcoinTxOutput) -> (recipient: Option<
        BurnchainRecipient,
    >)
        ensures
            recipient == Self::of_output(*output),
            recipient is Some <==> output.address is Some,
            recipient matches Some(r) ==> output.address == Some(r.address) && r.amount
                == output.units,
    {
        match output.address {
            Some(address) => Some(BurnchainRecipient { address, amount: output.units }),
            None => None,
        }
    }
}

/// A transaction of one of the supported burnchains.
#[derive(Debug, PartialEq, Clone)]
pub enum BurnchainTransaction {
    Bitcoin(BitcoinTransaction),
}

impl BurnchainTransaction {
    /// The bitcoin transaction that this is.
    pub open spec fn bitcoin(&self) -> BitcoinTransaction {
        match self {
            BurnchainTransaction::Bitcoin(btc) => *btc,
        }
    }

    /// For each output the recipient that it pays, if its address is known.
    pub open spec fn recipients(&self) -> Seq<Option<BurnchainRecipient>> {
        self.bitcoin().outputs@.map_values(
            |output: BitcoinTxOutput| BurnchainRecipient::of_output(output),
        )
    }

    /// The hash of the transaction.
    pub fn txid(&self) -> (txid: Txid)
        ensures
            txid == self.bitcoin().txid,
    {
        match self {
            BurnchainTransaction::Bitcoin(btc) => btc.txid,
        }
    }

    /// The place of the transaction in its block.
    pub fn vtxindex(&self) -> (index: u32)
        ensures
            index == self.bitcoin().vtxindex,
    {
        match self {
            BurnchainTransaction::Bitcoin(btc) => btc.vtxindex,
        }
    }

    /// The code of the operation that the transaction carries.
    pub fn opcode(&self) -> (opcode: u8)
        ensures
            opcode == self.bitcoin().opcode,
    {
        match self {
            BurnchainTransaction::Bitcoin(btc) => btc.opcode,
        }
    }

    /// The payload of the operation that the transaction carries.
    pub fn data(&self) -> (data: Vec<u8>)
        ensures
            data@ == self.bitcoin().data@,
    {
        match self {
            BurnchainTransaction::Bitcoin(btc) => btc.data.clone(),
        }
    }

    /// The number of inputs, each of which someone signed.
    pub fn num_signers(&self) -> (count: usize)
        ensures
            count == self.bitcoin().inputs@.len(),
    {
        match self {
            BurnchainTransaction::Bitcoin(btc) => btc.inputs.len(),
        }
    }

    /// The output that the given input spends, if there is such an input.
    pub fn get_input_tx_ref(&self, input: usize) -> (spent: Option<&(Txid, u32)>)
        ensures
            spent == if input
                < self.bitcoin().inputs@.len() {
                Some(&self.bitcoin().inputs@[input as int].tx_ref)
            } else {
                None
            },
    {
        match self {
            BurnchainTransaction::Bitcoin(btc) => {
                if input < btc.inputs.len() {
                    Some(btc.inputs[input].tx_ref())
                } else {
                    None
                }
            },
        }
    }

    /// Get the BurnchainRecipients we are able to decode.
    /// A `None` value at slot `i` means "there is a recipient at slot `i`, but we don't know how
    /// to decode it`.
    pub fn get_recipients(&self) -> (recipients: Vec<Option<BurnchainRecipient>>)
        ensures
            recipients@ == self.recipients(),
    {
        match self {
            BurnchainTransaction::Bitcoin(btc) => {
                let mut recipients: Vec<Option<BurnchainRecipient>> = Vec::new();
                for i in 0..btc.outputs.len()
                    invariant
                        recipients@.len() == i,
                        forall|j: int|
                            0 <= j < i ==> #[trigger] recipients@[j]
                                == BurnchainRecipient::of_output(btc.outputs@[j]),
                {
                    recipients.push(BurnchainRecipient::try_from_bitcoin_output(&btc.outputs[i]));
                }
                recipients
            },
        }
    }

    /// The number of outputs, each of which pays a recipient.
    pub fn num_recipients(&self) -> (count: usize)
        ensures
            count == self.bitcoin().outputs@.len(),
    {
        match self {
            BurnchainTransaction::Bitcoin(btc) => btc.outputs.len(),
        }
    }

    /// The amount that the transaction destroys.
    pub fn get_burn_amount(&self) -> (amount: u64)
        ensures
            amount == self.bitcoin().data_amt,
    {
        match self {
            BurnchainTransaction::Bitcoin(btc) => btc.data_amt,
        }
    }
}

} // verus!
