//! Burnchains as the Stacks chain sees them: the parameters of the supported networks, the
//! calendar of proof-of-transfer reward cycles, transactions, a node's view of the chain, and
//! what can go wrong while it is followed.

pub mod address;
pub mod bitcoin;
pub mod burnchain;
pub mod constants;
pub mod digest;
pub mod epoch;
pub mod error;
pub mod hash;
pub mod hex;
pub mod laws;
mod outside;
pub mod params;
pub mod pox;
pub mod pox_id;
pub mod transaction;
pub mod view;

pub use burnchain::{
    Burnchain, BurnchainBlock, BurnchainBlockHeader, BurnchainStateTransition,
    BurnchainStateTransitionOps,
};
pub use error::Error;
pub use hash::{BurnchainHeaderHash, MagicBytes, Txid};
pub use params::BurnchainParameters;
pub use pox::PoxConstants;
pub use transaction::{BurnchainRecipient, BurnchainSigner, BurnchainTransaction};
pub use view::BurnchainView;
