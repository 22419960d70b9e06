//! Identifiers made of a fixed number of bytes.
use crate::hex::{decode_32, encode_32, HexError};
use vstd::prelude::*;

verus! {

/// Hash of a burnchain block header.
#[derive(Debug, Clone, Copy, PartialEq, Eq, PartialOrd, Ord, Hash)]
pub struct BurnchainHeaderHash(pub [u8; 32]);

impl View for BurnchainHeaderHash {
    type V = Seq<u8>;

    open spec fn view(&self) -> Seq<u8> {
        self.0@
    }
}

impl BurnchainHeaderHash {
    /// The hash that 64 hexadecimal digits stand for.
    pub fn from_hex(text: &str) -> (result: Result<BurnchainHeaderHash, HexError>)
        ensures
            crate::hex::decodes_to(
                text@,
                text.len(),
                32,
                match result {
                    Ok(hash) => Ok(hash@),
                    Err(e) => Err(e),
                },
            ),
    {
        match decode_32(text) {
            Ok(bytes) => Ok(BurnchainHeaderHash(bytes)),
            Err(e) => Err(e),
        }
    }

    /// The hash as 64 lower-case hexadecimal digits.
    pub fn to_hex(&self) -> (text: String)
        ensures
            text@ == crate::hex::hex_encode(self@),
    {
        encode_32(&self.0)
    }
}

/// Hash of a burnchain transaction.
#[derive(Debug, Clone, Copy, PartialEq, Eq, PartialOrd, Ord, Hash)]
pub struct Txid(pub [u8; 32]);

/// Number of bytes of an encoded [`Txid`].
pub const TXID_ENCODED_SIZE: u32 = 32;

impl View for Txid {
    type V = Seq<u8>;

    open spec fn view(&self) -> Seq<u8> {
        self.0@
    }
}

impl Txid {
    /// The transaction hash that 64 hexadecimal digits stand for.
    pub fn from_hex(text: &str) -> (result: Result<Txid, HexError>)
        ensures
            crate::hex::decodes_to(
                text@,
                text.len(),
                32,
                match result {
                    Ok(txid) => Ok(txid@),
                    Err(e) => Err(e),
                },
            ),
    {
        match decode_32(text) {
            Ok(bytes) => Ok(Txid(bytes)),
            Err(e) => Err(e),
        }
    }

    /// The transaction hash as 64 lower-case hexadecimal digits.
    pub fn to_hex(&self) -> (text: String)
        ensures
            text@ == crate::hex::hex_encode(self@),
    {
        encode_32(&self.0)
    }
}

pub const MAGIC_BYTES_LENGTH: usize = 2;

/// The bytes that mark an operation of this chain on the burnchain.
#[derive(Debug, Clone, Copy, PartialEq, Eq, PartialOrd, Ord, Hash)]
pub struct MagicBytes([u8; MAGIC_BYTES_LENGTH]);

/// The magic bytes of the main network: the letters `id`.
pub const BLOCKSTACK_MAGIC_MAINNET: [u8; MAGIC_BYTES_LENGTH] = [105, 100];

impl View for MagicBytes {
    type V = Seq<u8>;

    closed spec fn view(&self) -> Seq<u8> {
        self.0@
    }
}

impl MagicBytes {
    /// The magic bytes of the main network.
    pub fn default() -> (magic: MagicBytes)
        ensures
            magic@ == seq![105u8, 100u8],
    {
        MagicBytes(BLOCKSTACK_MAGIC_MAINNET)
    }

    /// Magic bytes that hold the given bytes.
    pub fn from_bytes(bytes: [u8; MAGIC_BYTES_LENGTH]) -> (magic: MagicBytes)
        ensures
            magic@ == bytes@,
    {
        MagicBytes(bytes)
    }

    /// The bytes themselves.
    pub fn as_bytes(&self) -> (bytes: &[u8; MAGIC_BYTES_LENGTH])
        ensures
            bytes@ == self@,
    {
        &self.0
    }
}

impl Default for MagicBytes {
    /// Magic bytes that are all zero, which mark no network.
    fn default() -> (magic: MagicBytes)
        ensures
            magic@ == seq![0u8, 0u8],
    {
        MagicBytes([0, 0])
    }
}

} // verus!
