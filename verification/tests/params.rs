use burnchains::{BurnchainHeaderHash, BurnchainParameters, MagicBytes};

fn zero_hash() -> BurnchainHeaderHash {
    BurnchainHeaderHash([0; 32])
}

#[test]
fn mainnet_parameters() {
    let p = BurnchainParameters::bitcoin_mainnet();
    assert_eq!(p.first_block_height, 666050);
    assert_eq!(p.first_block_timestamp, 1610643248);
    assert_eq!(p.initial_reward_start_block, 651389);
    assert_eq!(
        p.first_block_hash.to_hex(),
        "0000000000000000000ab248c8e35c574514d052a83dbc12669e19bc43df486e"
    );
    let shown = format!("{:?}", p);
    assert!(shown.contains("chain_name: \"bitcoin\", network_name: \"mainnet\""));
    assert!(shown.contains("network_id: 3652501241"));
    assert!(shown.contains("stable_confirmations: 7, consensus_hash_lifetime: 24"));
}

#[test]
fn testnet_parameters() {
    let p = BurnchainParameters::bitcoin_testnet();
    assert_eq!(p.first_block_height, 2000000);
    assert_eq!(p.first_block_timestamp, 1622691840);
    assert_eq!(p.initial_reward_start_block, 1990000);
    assert_eq!(
        p.first_block_hash.to_hex(),
        "000000000000010dd0863ec3d7a0bae17c1957ae1de9cbcdae8e77aad33e3b8c"
    );
    let shown = format!("{:?}", p);
    assert!(shown.contains("chain_name: \"bitcoin\", network_name: \"testnet\""));
    assert!(shown.contains("network_id: 118034699"));
    assert!(shown.contains("stable_confirmations: 7, consensus_hash_lifetime: 24"));
}

#[test]
fn regtest_parameters() {
    let p = BurnchainParameters::bitcoin_regtest();
    assert_eq!(p.first_block_height, 0);
    assert_eq!(p.first_block_timestamp, 0);
    assert_eq!(p.initial_reward_start_block, 0);
    assert_eq!(p.first_block_hash, zero_hash());
    let shown = format!("{:?}", p);
    assert!(shown.contains("chain_name: \"bitcoin\", network_name: \"regtest\""));
    assert!(shown.contains("network_id: 3669344250"));
    assert!(shown.contains("stable_confirmations: 1, consensus_hash_lifetime: 24"));
}

#[test]
fn parameters_by_name() {
    assert_eq!(
        BurnchainParameters::from_params("bitcoin", "mainnet"),
        Some(BurnchainParameters::bitcoin_mainnet())
    );
    assert_eq!(
        BurnchainParameters::from_params("bitcoin", "testnet"),
        Some(BurnchainParameters::bitcoin_testnet())
    );
    assert_eq!(
        BurnchainParameters::from_params("bitcoin", "regtest"),
        Some(BurnchainParameters::bitcoin_regtest())
    );
    assert_eq!(BurnchainParameters::from_params("bitcoin", "signet"), None);
    assert_eq!(BurnchainParameters::from_params("bitcoin", ""), None);
    assert_eq!(BurnchainParameters::from_params("Bitcoin", "mainnet"), None);
    assert_eq!(BurnchainParameters::from_params("ethereum", "mainnet"), None);
}

#[test]
fn initial_rewards_start_by_the_first_block() {
    for network in ["mainnet", "testnet", "regtest"] {
        let p = BurnchainParameters::from_params("bitcoin", network).unwrap();
        assert!(p.initial_reward_start_block <= p.first_block_height);
    }
}

#[test]
fn test_network_ids() {
    assert!(!BurnchainParameters::is_testnet(0xD9B4BEF9));
    assert!(BurnchainParameters::is_testnet(0x0709110B));
    assert!(BurnchainParameters::is_testnet(0xDAB5BFFA));
    assert!(!BurnchainParameters::is_testnet(0));
}

#[test]
fn magic_bytes() {
    assert_eq!(MagicBytes::default().as_bytes(), b"id");
    let zero: MagicBytes = Default::default();
    assert_eq!(zero.as_bytes(), &[0, 0]);
    assert_eq!(MagicBytes::from_bytes([7, 9]).as_bytes(), &[7, 9]);
}
