use solana_stablecoin::address::Address;
use solana_stablecoin::errors::StablecoinError;
use solana_stablecoin::states::BondCollateralInfo;
use solana_stablecoin::states::BondConfigUpdate;
use solana_stablecoin::states::FactoryState;
use solana_stablecoin::states::FeeRateUpdate;
use solana_stablecoin::states::StablebondConfig;

fn registry_key(n: u8) -> Address {
    Address::new([n; 32])
}

fn empty_factory() -> FactoryState {
    FactoryState {
        admin: registry_key(1),
        fee_vault: registry_key(2),
        is_paused: false,
        min_collateral_ratio: 15_000,
        base_fee_rate: 30,
        stablecoin_count: 0,
        last_update: 0,
        allowed_bond_configs: Vec::new(),
        bond_collateral_tracking: Vec::new(),
        authorized_collectors: vec![registry_key(1)],
        protocol_version: 1,
        bump: 254,
        reserved: [0; 32],
    }
}

#[test]
fn added_bond_is_enabled_without_a_rate_of_its_own() {
    let mut factory = empty_factory();
    assert_eq!(factory.add_supported_bond(registry_key(20), registry_key(30), 100, 50), Ok(()));
    let expected = StablebondConfig {
        bond_mint: registry_key(20),
        payment_mint: registry_key(30),
        admin: registry_key(1),
        min_creation_amount: 100,
        min_redemption_amount: 50,
        is_enabled: true,
        custom_fee_rate: None,
    };
    assert_eq!(factory.allowed_bond_configs, vec![expected]);
    assert_eq!(factory.get_bond_config(&registry_key(20)), Some(&expected));
    assert_eq!(factory.get_bond_config(&registry_key(21)), None);
    assert_eq!(factory.find_bond_config(&registry_key(20)), Some(0));
    // the bond is tracked from the start, with nothing in use
    assert_eq!(
        factory.bond_collateral_tracking,
        vec![BondCollateralInfo { bond_mint: registry_key(20), total_collateral: 0, num_stablecoins: 0 }]
    );
    assert_eq!(factory.find_tracking(&registry_key(20)), Some(0));
    assert_eq!(factory.has_active_collateral(&registry_key(20)), Ok(false));
}

#[test]
fn bond_cannot_be_added_twice() {
    let mut factory = empty_factory();
    factory.add_supported_bond(registry_key(20), registry_key(30), 100, 50).unwrap();
    let before = factory.clone();
    assert_eq!(
        factory.add_supported_bond(registry_key(20), registry_key(31), 1, 1),
        Err(StablecoinError::BondAlreadyExists)
    );
    assert_eq!(factory, before);
}

#[test]
fn eleventh_bond_is_refused() {
    let mut factory = empty_factory();
    for n in 0..10u8 {
        assert_eq!(factory.add_supported_bond(registry_key(100 + n), registry_key(30), 1, 1), Ok(()));
    }
    let before = factory.clone();
    assert_eq!(
        factory.add_supported_bond(registry_key(99), registry_key(30), 1, 1),
        Err(StablecoinError::TooManyBonds)
    );
    // a full registry is reported before a duplicate is
    assert_eq!(
        factory.add_supported_bond(registry_key(100), registry_key(30), 1, 1),
        Err(StablecoinError::TooManyBonds)
    );
    assert_eq!(factory, before);
}

#[test]
fn fee_rate_is_the_bonds_own_or_the_base_rate() {
    let mut factory = empty_factory();
    factory.add_supported_bond(registry_key(20), registry_key(30), 100, 50).unwrap();
    assert_eq!(factory.get_fee_rate(&registry_key(20)), Ok(30));
    factory.allowed_bond_configs[0].custom_fee_rate = Some(75);
    assert_eq!(factory.get_fee_rate(&registry_key(20)), Ok(75));
    assert_eq!(factory.get_fee_rate(&registry_key(21)), Err(StablecoinError::BondNotFound));
}

#[test]
fn update_sets_clears_and_keeps_the_fee_rate() {
    let mut factory = empty_factory();
    factory.add_supported_bond(registry_key(20), registry_key(30), 100, 50).unwrap();
    let set = BondConfigUpdate { is_enabled: None, custom_fee_rate: FeeRateUpdate::Replace(10_000) };
    let after = factory.update_bond(&registry_key(20), set).unwrap();
    assert_eq!(after.custom_fee_rate, Some(10_000));
    assert!(after.is_enabled);
    assert_eq!(factory.allowed_bond_configs[0], after);

    let keep = BondConfigUpdate { is_enabled: Some(false), custom_fee_rate: FeeRateUpdate::Keep };
    let after = factory.update_bond(&registry_key(20), keep).unwrap();
    assert_eq!(after.custom_fee_rate, Some(10_000));
    assert!(!after.is_enabled);

    let clear = BondConfigUpdate { is_enabled: None, custom_fee_rate: FeeRateUpdate::Clear };
    let after = factory.update_bond(&registry_key(20), clear).unwrap();
    assert_eq!(after.custom_fee_rate, None);
    assert!(!after.is_enabled);
    assert_eq!(factory.allowed_bond_configs[0], after);
}

#[test]
fn update_with_excessive_fee_changes_nothing() {
    let mut factory = empty_factory();
    factory.add_supported_bond(registry_key(20), registry_key(30), 100, 50).unwrap();
    let before = factory.clone();
    let update = BondConfigUpdate { is_enabled: Some(false), custom_fee_rate: FeeRateUpdate::Replace(10_001) };
    assert_eq!(factory.update_bond(&registry_key(20), update), Err(StablecoinError::InvalidFeeRate));
    assert_eq!(factory, before);
    assert_eq!(factory.update_bond(&registry_key(21), update), Err(StablecoinError::BondNotFound));
}

#[test]
fn bond_without_collateral_can_be_removed() {
    let mut factory = empty_factory();
    factory.add_supported_bond(registry_key(20), registry_key(30), 100, 50).unwrap();
    factory.add_supported_bond(registry_key(21), registry_key(30), 100, 50).unwrap();
    assert_eq!(factory.remove_supported_bond(&registry_key(20)), Ok(()));
    assert_eq!(factory.allowed_bond_configs.len(), 1);
    assert_eq!(factory.allowed_bond_configs[0].bond_mint, registry_key(21));
    assert_eq!(
        factory.bond_collateral_tracking,
        vec![BondCollateralInfo { bond_mint: registry_key(21), total_collateral: 0, num_stablecoins: 0 }]
    );
    assert_eq!(factory.remove_supported_bond(&registry_key(20)), Err(StablecoinError::BondNotFound));
}

#[test]
fn bond_with_collateral_cannot_be_removed() {
    let mut factory = empty_factory();
    factory.add_supported_bond(registry_key(20), registry_key(30), 100, 50).unwrap();
    assert_eq!(factory.update_bond_collateral(&registry_key(20), 1, true), Ok(()));
    let before = factory.clone();
    assert_eq!(factory.has_active_collateral(&registry_key(20)), Ok(true));
    assert_eq!(
        factory.remove_supported_bond(&registry_key(20)),
        Err(StablecoinError::ActiveCollateralExists)
    );
    assert_eq!(factory, before);
    assert_eq!(factory.update_bond_collateral(&registry_key(20), 1, false), Ok(()));
    assert_eq!(factory.has_active_collateral(&registry_key(20)), Ok(false));
    assert_eq!(factory.remove_supported_bond(&registry_key(20)), Ok(()));
}

#[test]
fn collateral_under_any_entry_of_the_bond_keeps_it_registered() {
    let mut factory = empty_factory();
    factory.add_supported_bond(registry_key(20), registry_key(30), 100, 50).unwrap();
    factory.bond_collateral_tracking.push(BondCollateralInfo {
        bond_mint: registry_key(21),
        total_collateral: 7,
        num_stablecoins: 0,
    });
    assert_eq!(factory.has_active_collateral(&registry_key(20)), Ok(false));
    factory.bond_collateral_tracking.push(BondCollateralInfo {
        bond_mint: registry_key(20),
        total_collateral: 1,
        num_stablecoins: 0,
    });
    let before = factory.clone();
    assert_eq!(factory.has_active_collateral(&registry_key(20)), Ok(true));
    assert_eq!(
        factory.remove_supported_bond(&registry_key(20)),
        Err(StablecoinError::ActiveCollateralExists)
    );
    assert_eq!(factory, before);
}

#[test]
fn registering_again_keeps_the_entry_the_tracker_has() {
    let mut factory = empty_factory();
    factory.bond_collateral_tracking.push(BondCollateralInfo {
        bond_mint: registry_key(20),
        total_collateral: 0,
        num_stablecoins: 4,
    });
    factory.add_supported_bond(registry_key(20), registry_key(30), 100, 50).unwrap();
    assert_eq!(
        factory.bond_collateral_tracking,
        vec![BondCollateralInfo { bond_mint: registry_key(20), total_collateral: 0, num_stablecoins: 4 }]
    );
}

#[test]
fn stablecoins_are_counted_against_their_bond() {
    let mut factory = empty_factory();
    assert_eq!(factory.count_stablecoin(&registry_key(20)), Err(StablecoinError::BondNotFound));
    factory.add_supported_bond(registry_key(20), registry_key(30), 100, 50).unwrap();
    factory.update_bond_collateral(&registry_key(20), 9, true).unwrap();
    assert_eq!(factory.count_stablecoin(&registry_key(20)), Ok(()));
    assert_eq!(factory.count_stablecoin(&registry_key(20)), Ok(()));
    assert_eq!(
        factory.bond_collateral_tracking,
        vec![BondCollateralInfo { bond_mint: registry_key(20), total_collateral: 9, num_stablecoins: 2 }]
    );
    factory.bond_collateral_tracking[0].num_stablecoins = u32::MAX;
    let before = factory.clone();
    assert_eq!(factory.count_stablecoin(&registry_key(20)), Err(StablecoinError::MathOverflow));
    assert_eq!(factory, before);
}

#[test]
fn tracker_counts_deposits_and_withdrawals() {
    let mut factory = empty_factory();
    assert_eq!(factory.has_active_collateral(&registry_key(20)), Ok(false));
    assert_eq!(
        factory.update_bond_collateral(&registry_key(20), 5, true),
        Err(StablecoinError::BondNotFound)
    );
    factory.bond_collateral_tracking.push(BondCollateralInfo {
        bond_mint: registry_key(20),
        total_collateral: 0,
        num_stablecoins: 3,
    });
    assert_eq!(factory.update_bond_collateral(&registry_key(20), 500, true), Ok(()));
    assert_eq!(factory.update_bond_collateral(&registry_key(20), 200, false), Ok(()));
    assert_eq!(
        factory.bond_collateral_tracking,
        vec![BondCollateralInfo { bond_mint: registry_key(20), total_collateral: 300, num_stablecoins: 3 }]
    );
    let before = factory.clone();
    assert_eq!(
        factory.update_bond_collateral(&registry_key(20), 301, false),
        Err(StablecoinError::InsufficientCollateral)
    );
    assert_eq!(
        factory.update_bond_collateral(&registry_key(20), u64::MAX, true),
        Err(StablecoinError::MathOverflow)
    );
    assert_eq!(factory, before);
}

#[test]
fn collectors_are_distinct_and_at_most_five() {
    let mut factory = empty_factory();
    assert!(factory.is_authorized_collector(registry_key(1)));
    assert!(!factory.is_authorized_collector(registry_key(40)));
    assert_eq!(factory.add_collector(registry_key(1)), Err(StablecoinError::CollectorAlreadyExists));
    for n in 40..44u8 {
        assert_eq!(factory.add_collector(registry_key(n)), Ok(()));
    }
    assert_eq!(factory.authorized_collectors.len(), 5);
    assert!(factory.is_authorized_collector(registry_key(43)));
    let before = factory.clone();
    assert_eq!(factory.add_collector(registry_key(44)), Err(StablecoinError::MaxCollectorsReached));
    assert_eq!(factory, before);
}

#[test]
fn unlisted_and_disabled_bonds_are_told_apart() {
    let mut factory = empty_factory();
    assert_eq!(factory.check_bond_listed(&registry_key(20)), Err(StablecoinError::UnsupportedBond));
    factory.add_supported_bond(registry_key(20), registry_key(30), 100, 50).unwrap();
    assert_eq!(factory.check_bond_listed(&registry_key(20)), Ok(()));
    factory.allowed_bond_configs[0].is_enabled = false;
    assert_eq!(factory.check_bond_listed(&registry_key(20)), Err(StablecoinError::BondDisabled));
}
