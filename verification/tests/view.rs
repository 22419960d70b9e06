use burnchains::{BurnchainHeaderHash, BurnchainView};
use std::collections::HashMap;

fn view(tip: u64, stable: u64) -> BurnchainView {
    let mut hashes = HashMap::new();
    hashes.insert(123_456_789, BurnchainHeaderHash([5; 32]));
    BurnchainView {
        burn_block_height: tip,
        burn_block_hash: BurnchainHeaderHash([1; 32]),
        burn_stable_block_height: stable,
        burn_stable_block_hash: BurnchainHeaderHash([2; 32]),
        last_burn_block_hashes: hashes,
    }
}

#[test]
fn test_data_near_genesis() {
    let mut v = view(10, 3);
    v.make_test_data();
    assert_eq!(v.last_burn_block_hashes.len(), 11);
    assert_eq!(v.last_burn_block_hashes[&3], BurnchainHeaderHash([2; 32]));
    assert_eq!(v.last_burn_block_hashes[&10], BurnchainHeaderHash([1; 32]));
    assert_eq!(
        v.last_burn_block_hashes[&0].to_hex(),
        "af5570f5a1810b7af78caf4bc70a660f0df51e42baf91d4de5b2328de0e83dfc"
    );
    assert_eq!(
        v.last_burn_block_hashes[&1].to_hex(),
        "7c9fa136d4413fa6173637e883b6998d32e1d675f88cddff9dcbcf331820f4b8"
    );
    assert_eq!(v.burn_block_height, 10);
    assert_eq!(v.burn_block_hash, BurnchainHeaderHash([1; 32]));
    assert_eq!(v.burn_stable_block_height, 3);
    assert_eq!(v.burn_stable_block_hash, BurnchainHeaderHash([2; 32]));
}

#[test]
fn test_data_reaches_back_a_fixed_distance() {
    let mut v = view(1007, 1000);
    v.make_test_data();
    assert_eq!(v.last_burn_block_hashes.len(), 288 + 8);
    assert!(!v.last_burn_block_hashes.contains_key(&711));
    assert_eq!(
        v.last_burn_block_hashes[&712].to_hex(),
        "bcf7fa1a7454fecdedf08ecea1cacbb5feb8db1ed62e82a7791b0775c2dcabf4"
    );
    assert!(!v.last_burn_block_hashes.contains_key(&1008));
    let mut again = v.clone();
    again.make_test_data();
    assert_eq!(again, v);
}

#[test]
fn stable_hash_counts_where_tip_is_stable() {
    let mut v = view(5, 5);
    v.make_test_data();
    assert_eq!(v.last_burn_block_hashes.len(), 6);
    assert_eq!(v.last_burn_block_hashes[&5], BurnchainHeaderHash([2; 32]));
}

#[test]
fn no_test_data_where_tip_is_too_old() {
    let mut v = view(5, 1000);
    v.make_test_data();
    assert!(v.last_burn_block_hashes.is_empty());
}

#[test]
fn hash_from_a_given_digest() {
    let v = view(10, 3);
    assert_eq!(v.block_hash_or(3, [9; 32]), BurnchainHeaderHash([2; 32]));
    assert_eq!(v.block_hash_or(10, [9; 32]), BurnchainHeaderHash([1; 32]));
    assert_eq!(v.block_hash_or(4, [9; 32]), BurnchainHeaderHash([9; 32]));
}
