//! Addresses that proof of transfer can pay.
use vstd::prelude::*;

verus! {

/// A 160-bit public-key or script hash.
#[derive(Debug, Clone, Copy, PartialEq, Eq, PartialOrd, Ord, Hash)]
pub struct Hash160(pub [u8; 20]);

/// How the hash of an address was made from public keys.
#[derive(Debug, Clone, Copy, PartialEq, Eq, Hash)]
pub enum AddressHashMode {
    /// hash160(public-key), same as bitcoin's p2pkh
    SerializeP2PKH,
    /// hash160(multisig-redeem-script), same as bitcoin's multisig p2sh
    SerializeP2SH,
    /// hash160(segwit-program-00(p2pkh)), same as bitcoin's p2sh-p2wpkh
    SerializeP2WPKH,
    /// hash160(segwit-program-00(public-keys)), same as bitcoin's p2sh-p2wsh
    SerializeP2WSH,
}

/// An address on the Stacks chain.
#[derive(Debug, Clone, Copy, PartialEq, Eq, Hash)]
pub struct StacksAddress {
    pub version: u8,
    pub bytes: Hash160,
}

/// Kinds of PoX address with a hash of 20 bytes.
#[derive(Debug, Clone, Copy, PartialEq, Eq, Hash)]
pub enum PoxAddressType20 {
    P2WPKH,
}

/// Kinds of PoX address with a hash of 32 bytes.
#[derive(Debug, Clone, Copy, PartialEq, Eq, Hash)]
pub enum PoxAddressType32 {
    P2WSH,
    P2TR,
}

/// An address that can receive a PoX reward. The flag tells the main network from the others.
#[derive(Debug, Clone, Copy, PartialEq, Eq, Hash)]
pub enum PoxAddress {
    /// An address with a Stacks counterpart, with its hash mode where that is known.
    Standard(StacksAddress, Option<AddressHashMode>),
    Addr20(bool, PoxAddressType20, [u8; 20]),
    Addr32(bool, PoxAddressType32, [u8; 32]),
}

} // verus!
