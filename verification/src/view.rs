//! A node's view of the burnchain.
use crate::constants::MAX_NEIGHBOR_BLOCK_DELAY;
use crate::digest::sha256;
use crate::hash::BurnchainHeaderHash;
use std::collections::HashMap;
use vstd::bytes::u64_to_le_bytes;
use vstd::prelude::*;

verus! {

/// Structure for encoding our view of the network
#[derive(Debug, PartialEq, Clone)]
pub struct BurnchainView {
    /// last-seen block height (at chain tip)
    pub burn_block_height: u64,
    /// last-seen burn block hash
    pub burn_block_hash: BurnchainHeaderHash,
    /// latest stable block height (e.g. chain tip minus 7)
    pub burn_stable_block_height: u64,
    /// latest stable burn block hash
    pub burn_stable_block_hash: BurnchainHeaderHash,
    /// map all block heights from burn_block_height back to the oldest one we'll take for
    /// considering the peer a neighbor
    pub last_burn_block_hashes: HashMap<u64, BurnchainHeaderHash>,
}

impl BurnchainView {
    /// The oldest height that a neighbor may be at: some blocks before the stable tip, or 0.
    pub open spec fn oldest_neighbor_height(&self) -> int {
        if self.burn_stable_block_height < MAX_NEIGHBOR_BLOCK_DELAY {
            0
        } else {
            self.burn_stable_block_height - MAX_NEIGHBOR_BLOCK_DELAY
        }
    }

    /// Whether the hash of the block at `height` is kept in the view.
    pub open spec fn covers(&self, height: u64) -> bool {
        self.oldest_neighbor_height() <= height <= self.burn_block_height
    }

    /// The hash of the block at `height`, where `digest` stands in for what is not known: the
    /// stable block and the tip have their own.
    pub open spec fn hash_or(&self, height: u64, digest: Seq<u8>) -> Seq<u8> {
        if height == self.burn_stable_block_height {
            self.burn_stable_block_hash@
        } else if height == self.burn_block_height {
            self.burn_block_hash@
        } else {
            digest
        }
    }

    /// The digest that stands in for the hash of the block at `height`.
    pub open spec fn stand_in(height: u64) -> Seq<u8> {
        crate::digest::sha256_digest(vstd::bytes::spec_u64_to_le_bytes(height))
    }

    /// Whether `hashes` holds a hash for exactly the covered heights, each the known hash or
    /// else its stand-in.
    pub open spec fn is_test_data(&self, hashes: Map<u64, BurnchainHeaderHash>) -> bool {
        &&& forall|h: u64| #[trigger] hashes.contains_key(h) <==> self.covers(h)
        &&& forall|h: u64| #[trigger]
            hashes.contains_key(h) ==> hashes[h]@ == self.hash_or(h, Self::stand_in(h))
    }

    /// The hash of the block at `height`, where `digest` stands in for what is not known.
    pub fn block_hash_or(&self, height: u64, digest: [u8; 32]) -> (hash: BurnchainHeaderHash)
        ensures
            hash@ == self.hash_or(height, digest@),
    {
        if height == self.burn_stable_block_height {
            self.burn_stable_block_hash
        } else if height == self.burn_block_height {
            self.burn_block_hash
        } else {
            BurnchainHeaderHash(digest)
        }
    }

    /// Fills in a hash for every height from the oldest that a neighbor may be at to the tip.
    pub fn make_test_data(&mut self)
        requires
            old(self).burn_block_height < u64::MAX,
        ensures
            old(self).is_test_data(final(self).last_burn_block_hashes@),
            final(self).burn_block_height == old(self).burn_block_height,
            final(self).burn_block_hash == old(self).burn_block_hash,
            final(self).burn_stable_block_height == old(self).burn_stable_block_height,
            final(self).burn_stable_block_hash == old(self).burn_stable_block_hash,
    {
        let oldest_height: u64 = if self.burn_stable_block_height < MAX_NEIGHBOR_BLOCK_DELAY {
            0
        } else {
            self.burn_stable_block_height - MAX_NEIGHBOR_BLOCK_DELAY
        };

        let mut ret: HashMap<u64, BurnchainHeaderHash> = HashMap::new();
        let mut i: u64 = oldest_height;
        while i < self.burn_block_height + 1
            invariant
                *self == *old(self),
                self.burn_block_height < u64::MAX,
                oldest_height == self.oldest_neighbor_height(),
                oldest_height <= i,
                i <= self.burn_block_height + 1 || i == oldest_height,
                forall|h: u64| #[trigger] ret@.contains_key(h) <==> oldest_height <= h < i,
                forall|h: u64| #[trigger]
                    ret@.contains_key(h) ==> ret@[h]@ == self.hash_or(h, Self::stand_in(h)),
            decreases self.burn_block_height + 1 - i,
        {
            let digest = sha256(u64_to_le_bytes(i).as_slice());
            ret.insert(i, self.block_hash_or(i, digest));
            i = i + 1;
        }
        self.last_burn_block_hashes = ret;
    }
}

} // verus!
