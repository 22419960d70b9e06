use burnchains::epoch::StacksEpochId;
use burnchains::pox::PoxConstants;

#[test]
fn new_keeps_its_arguments() {
    let c = PoxConstants::new(10, 4, 3, 25, 5, 100, 200, 7);
    assert_eq!(c.reward_cycle_length, 10);
    assert_eq!(c.prepare_length, 4);
    assert_eq!(c.anchor_threshold, 3);
    assert_eq!(c.pox_rejection_fraction, 25);
    assert_eq!(c.pox_participation_threshold_pct, 5);
    assert_eq!(c.sunset_start, 100);
    assert_eq!(c.sunset_end, 200);
    assert_eq!(c.v1_unlock_height, 7);
    assert_eq!(c.clone(), c);
}

#[test]
fn network_defaults() {
    let main = PoxConstants::mainnet_default();
    assert_eq!(
        main,
        PoxConstants::new(2100, 100, 80, 25, 5, 766_050, 1_166_050, 781_552)
    );
    let test = PoxConstants::testnet_default();
    assert_eq!(
        test,
        PoxConstants::new(1050, 50, 40, 12, 2, 2_100_000, 2_500_000, 2_422_102)
    );
    let reg = PoxConstants::regtest_default();
    assert_eq!(
        reg,
        PoxConstants::new(5, 1, 1, 3333333333333333, 1, 100_000, 500_000, 1_000_000)
    );
    let small = PoxConstants::test_default();
    assert_eq!(
        small,
        PoxConstants::new(10, 5, 3, 25, 5, 5000, 10000, u32::MAX)
    );
}

#[test]
fn reward_slots_per_cycle() {
    assert_eq!(PoxConstants::mainnet_default().reward_slots(), 4000);
    assert_eq!(PoxConstants::testnet_default().reward_slots(), 2000);
    assert_eq!(PoxConstants::regtest_default().reward_slots(), 8);
    assert_eq!(PoxConstants::test_default().reward_slots(), 10);
}

#[test]
fn active_contract_changes_after_unlock_height() {
    assert_eq!(PoxConstants::static_active_pox_contract(100, 99), "pox");
    assert_eq!(PoxConstants::static_active_pox_contract(100, 100), "pox");
    assert_eq!(PoxConstants::static_active_pox_contract(100, 101), "pox-2");
    let c = PoxConstants::mainnet_default();
    assert_eq!(c.active_pox_contract(781_552), "pox");
    assert_eq!(c.active_pox_contract(781_553), "pox-2");
    assert_eq!(PoxConstants::test_default().active_pox_contract(u32::MAX as u64), "pox");
}

#[test]
fn participation_has_to_exceed_threshold() {
    let c = PoxConstants::mainnet_default();
    assert!(!c.enough_participation(0, 0));
    assert!(c.enough_participation(1, 0));
    assert!(!c.enough_participation(5, 100));
    assert!(c.enough_participation(6, 100));
    assert!(c.enough_participation(2_000_000_000_000_001, 40_000_000_000_000_000));
    assert!(!c.enough_participation(2_000_000_000_000_000, 40_000_000_000_000_000));
    assert!(c.enough_participation(u128::MAX / 100, u128::MAX / 100));
}

#[test]
fn sunset_depends_on_epoch() {
    assert!(PoxConstants::has_pox_sunset(StacksEpochId::Epoch10));
    assert!(PoxConstants::has_pox_sunset(StacksEpochId::Epoch20));
    assert!(PoxConstants::has_pox_sunset(StacksEpochId::Epoch2_05));
    assert!(!PoxConstants::has_pox_sunset(StacksEpochId::Epoch21));
    assert!(StacksEpochId::Epoch10 < StacksEpochId::Epoch20);
    assert!(StacksEpochId::Epoch21 >= StacksEpochId::Epoch2_05);

    let c = PoxConstants::test_default();
    let early = StacksEpochId::Epoch2_05;
    let late = StacksEpochId::Epoch21;
    assert!(!c.is_after_pox_sunset_start(4999, early));
    assert!(c.is_after_pox_sunset_start(5000, early));
    assert!(c.is_after_pox_sunset_start(10001, early));
    assert!(!c.is_after_pox_sunset_start(5000, late));
    assert!(!c.is_after_pox_sunset_end(9999, early));
    assert!(c.is_after_pox_sunset_end(10000, early));
    assert!(!c.is_after_pox_sunset_end(10000, late));
}

#[test]
fn cycle_starts_round_trip() {
    let c = PoxConstants::test_default();
    for cycle in 0..20u64 {
        let height = c.reward_cycle_to_block_height(100, cycle);
        assert_eq!(height, 101 + 10 * cycle);
        assert!(c.is_reward_cycle_start(100, height));
        assert!(!c.is_reward_cycle_start(100, height + 1));
        assert!(!c.is_in_prepare_phase(100, height));
        assert_eq!(c.block_height_to_reward_cycle(100, height), Some(cycle));
    }
    assert!(!c.is_reward_cycle_start(100, 100));
}

#[test]
fn reward_cycle_of_height() {
    let c = PoxConstants::test_default();
    assert_eq!(c.block_height_to_reward_cycle(100, 99), None);
    assert_eq!(c.block_height_to_reward_cycle(100, 100), Some(0));
    assert_eq!(c.block_height_to_reward_cycle(100, 109), Some(0));
    assert_eq!(c.block_height_to_reward_cycle(100, 110), Some(1));
    assert_eq!(PoxConstants::static_block_height_to_reward_cycle(5, 6, 0), None);
    assert_eq!(
        PoxConstants::static_block_height_to_reward_cycle(u64::MAX, 0, 1),
        Some(u64::MAX)
    );
}

#[test]
fn prepare_phase_is_end_of_cycle() {
    let c = PoxConstants::test_default();
    for cycle in 0..5u64 {
        let start = c.reward_cycle_to_block_height(100, cycle);
        for offset in 0..10u64 {
            assert_eq!(c.is_in_prepare_phase(100, start + offset), offset >= 5);
        }
    }
    assert!(!c.is_in_prepare_phase(100, 100));
    assert!(!c.is_in_prepare_phase(100, 7));
    // the last block of a cycle counts even where the prepare phase has no length
    assert!(PoxConstants::static_is_in_prepare_phase(0, 10, 0, 10));
    assert!(!PoxConstants::static_is_in_prepare_phase(0, 10, 0, 9));
    assert!(!PoxConstants::static_is_in_prepare_phase(8, 0, 0, 8));
}

#[test]
fn blocks_outside_prepare_phase_fill_the_slots() {
    let c = PoxConstants::test_default();
    let start = c.reward_cycle_to_block_height(33, 2);
    let mut paying: u32 = 0;
    for height in start..start + 10 {
        if !c.is_in_prepare_phase(33, height) {
            paying += 1;
        }
    }
    assert_eq!(2 * paying, c.reward_slots());
}
