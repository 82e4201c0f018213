use anchor_lang::prelude::Pubkey;
use solana_stablecoin::accounts::AccountSnapshot;
use solana_stablecoin::accounts::OracleRound;
use solana_stablecoin::accounts::TokenAccount;
use solana_stablecoin::address::Address;
use solana_stablecoin::contexts::burn_stablecoin;
use solana_stablecoin::contexts::burn_stablecoin_with;
use solana_stablecoin::contexts::mint_stablecoin;
use solana_stablecoin::contexts::mint_stablecoin_with;
use solana_stablecoin::contexts::BurnReceipt;
use solana_stablecoin::contexts::BurnStablecoin;
use solana_stablecoin::contexts::MintReceipt;
use solana_stablecoin::contexts::MintStablecoin;
use solana_stablecoin::errors::StablecoinError;
use solana_stablecoin::events::StablecoinBurned;
use solana_stablecoin::events::StablecoinMinted;
use solana_stablecoin::program::burn_tokens;
use solana_stablecoin::program::mint_tokens;
use solana_stablecoin::stablebond::stablebond_program;
use solana_stablecoin::states::BondCollateralInfo;
use solana_stablecoin::states::FactoryState;
use solana_stablecoin::states::SolFeeVault;
use solana_stablecoin::states::StablebondConfig;
use solana_stablecoin::states::StablecoinState;
use solana_stablecoin::states::UserShare;
use solana_stablecoin::states::UserState;

const NOW: i64 = 1_700_000_000;

fn flow_key(n: u8) -> Address {
    Address::new([n; 32])
}

fn kyc_of(user: &Address) -> Address {
    let (address, _) = stablebond_sdk::find_kyc_pda(Pubkey::new_from_array(user.to_bytes()));
    Address::new(address.to_bytes())
}

fn flow_factory() -> FactoryState {
    FactoryState {
        admin: flow_key(1),
        fee_vault: flow_key(2),
        is_paused: false,
        min_collateral_ratio: 15_000,
        base_fee_rate: 30,
        stablecoin_count: 1,
        last_update: 0,
        allowed_bond_configs: vec![StablebondConfig {
            bond_mint: flow_key(20),
            payment_mint: flow_key(30),
            admin: flow_key(1),
            min_creation_amount: 100,
            min_redemption_amount: 50,
            is_enabled: true,
            custom_fee_rate: None,
        }],
        bond_collateral_tracking: vec![BondCollateralInfo {
            bond_mint: flow_key(20),
            total_collateral: 40,
            num_stablecoins: 1,
        }],
        authorized_collectors: vec![flow_key(1)],
        protocol_version: 1,
        bump: 254,
        reserved: [0; 32],
    }
}

fn flow_stablecoin(collateral_ratio: u16) -> StablecoinState {
    StablecoinState {
        name: String::from("Peso"),
        symbol: String::from("PESO"),
        original_symbol: String::from("PESO"),
        target_currency: String::from("MXN"),
        creator: flow_key(1),
        mint: flow_key(40),
        last_updated: 0,
        user_shares: Vec::new(),
        stablebond_mint: flow_key(20),
        collateral_vault: flow_key(41),
        collateral_ratio,
        total_supply: 0,
        total_collateral: 0,
        last_rebase: 0,
        total_rebase_amount: 0,
        last_yield_collection: 0,
        last_rate_update: 0,
        yield_mint: flow_key(5),
        total_yield_collected: 0,
        bond_mint: flow_key(20),
        fiat_oracle: flow_key(6),
        last_price_update: 0,
        is_paused: false,
        fee_rate: 0,
        last_fee_collection: 0,
        bump: 255,
        reserved: [0; 32],
    }
}

fn flow_user_state(user: &Address) -> UserState {
    UserState {
        bump: 253,
        user: *user,
        stablecoin: flow_key(40),
        total_yield_collected: 0,
        last_yield_collection: 0,
        bond_amount: 0,
        stablecoin_amount: 0,
        reserved: [0; 32],
    }
}

fn mint_context(mantissa: i128, collateral_ratio: u16) -> MintStablecoin {
    let user = flow_key(10);
    MintStablecoin {
        user,
        stablecoin_state: flow_stablecoin(collateral_ratio),
        factory_state: flow_factory(),
        user_state: flow_user_state(&user),
        user_bond_account: TokenAccount { key: flow_key(50), owner: user, mint: flow_key(20), amount: 5_000_000 },
        user_stablecoin_account: TokenAccount { key: flow_key(51), owner: flow_key(52), mint: flow_key(40), amount: 0 },
        stablecoin_mint: flow_key(40),
        collateral_vault: TokenAccount { key: flow_key(41), owner: flow_key(53), mint: flow_key(20), amount: 0 },
        sol_fee_vault: SolFeeVault { total_fees_collected: 7, last_collection: 3, admin: flow_key(1), bump: 252 },
        kyc_info: AccountSnapshot { key: kyc_of(&user), owner: stablebond_program(), data: Vec::new() },
        oracle: OracleRound { mantissa, round_open_timestamp: NOW - 5 },
        unix_timestamp: NOW,
    }
}

fn burn_context(after: &MintStablecoin, held: u64, in_vault: u64) -> BurnStablecoin {
    BurnStablecoin {
        user: after.user,
        stablecoin_state: after.stablecoin_state.clone(),
        factory_state: after.factory_state.clone(),
        user_state: after.user_state,
        user_bond_account: after.user_bond_account,
        user_stablecoin_account: TokenAccount { amount: held, ..after.user_stablecoin_account },
        stablecoin_mint: after.stablecoin_mint,
        collateral_vault: TokenAccount { amount: in_vault, ..after.collateral_vault },
        sol_fee_vault: after.sol_fee_vault,
        kyc_info: after.kyc_info.clone(),
        oracle: after.oracle,
        unix_timestamp: after.unix_timestamp + 60,
    }
}

#[test]
fn mint_issues_supply_against_the_deposit() {
    let mut ctx = mint_context(2, 15_000);
    let before = ctx.clone();
    let receipt = mint_stablecoin(&mut ctx, 1_000_000);
    assert_eq!(
        receipt,
        Ok(MintReceipt {
            fee_amount: 3_999,
            event: StablecoinMinted {
                user: flow_key(10),
                mint: flow_key(40),
                bond_amount: 1_000_000,
                mint_amount: 1_333_333,
                bond_price: 2_000_000,
                timestamp: NOW,
            },
        })
    );
    let mut expected = before;
    expected.stablecoin_state.user_shares =
        vec![UserShare { owner: flow_key(10), bond_amount: 1_000_000, mint_amount: 1_333_333, timestamp: NOW }];
    expected.stablecoin_state.total_supply = 1_333_333;
    expected.stablecoin_state.total_collateral = 1_000_000;
    expected.stablecoin_state.last_updated = NOW;
    expected.stablecoin_state.last_price_update = NOW - 5;
    expected.factory_state.bond_collateral_tracking[0].total_collateral = 1_000_040;
    expected.sol_fee_vault.total_fees_collected = 4_006;
    expected.sol_fee_vault.last_collection = NOW;
    assert_eq!(ctx, expected);
}

#[test]
fn mint_uses_the_rate_of_the_bond_where_it_has_one() {
    let mut ctx = mint_context(2, 15_000);
    ctx.factory_state.allowed_bond_configs[0].custom_fee_rate = Some(100);
    let receipt = mint_stablecoin(&mut ctx, 1_000_000).unwrap();
    assert_eq!(receipt.fee_amount, 13_333);
    assert_eq!(ctx.calculate_fee_amount(1_000_000), Ok(10_000));
}

#[test]
fn price_of_exactly_the_threshold_age_is_fresh() {
    let mut ctx = mint_context(2, 15_000);
    ctx.oracle.round_open_timestamp = NOW - 300;
    assert_eq!(ctx.validate(1_000_000), Ok(()));
    assert!(mint_stablecoin(&mut ctx, 1_000_000).is_ok());
    assert_eq!(ctx.stablecoin_state.last_price_update, NOW - 300);
}

#[test]
fn price_one_second_past_the_threshold_is_stale() {
    let mut ctx = mint_context(2, 15_000);
    ctx.oracle.round_open_timestamp = NOW - 301;
    let before = ctx.clone();
    assert_eq!(ctx.validate(1_000_000), Err(StablecoinError::StaleOraclePrice));
    assert_eq!(mint_stablecoin(&mut ctx, 1_000_000), Err(StablecoinError::StaleOraclePrice));
    assert_eq!(ctx, before);
}

#[test]
fn freshness_is_that_of_the_oracle_round_and_not_of_the_record() {
    // an old round is stale whatever the record says of the last observation
    let mut ctx = mint_context(2, 15_000);
    ctx.oracle.round_open_timestamp = NOW - 10_000;
    ctx.stablecoin_state.last_price_update = NOW;
    assert_eq!(mint_stablecoin(&mut ctx, 1_000_000), Err(StablecoinError::StaleOraclePrice));
    // a fresh round is accepted whatever the record says
    let mut ctx = mint_context(2, 15_000);
    ctx.oracle.round_open_timestamp = NOW;
    ctx.stablecoin_state.last_price_update = NOW - 10_000;
    assert!(mint_stablecoin(&mut ctx, 1_000_000).is_ok());
    assert_eq!(ctx.stablecoin_state.last_price_update, NOW);
}

#[test]
fn deposit_is_counted_against_the_bond() {
    let mut ctx = mint_context(2, 15_000);
    ctx.factory_state.bond_collateral_tracking.insert(
        0,
        BondCollateralInfo { bond_mint: flow_key(21), total_collateral: 9, num_stablecoins: 0 },
    );
    mint_stablecoin(&mut ctx, 1_000_000).unwrap();
    mint_stablecoin(&mut ctx, 250).unwrap();
    assert_eq!(
        ctx.factory_state.bond_collateral_tracking,
        vec![
            BondCollateralInfo { bond_mint: flow_key(21), total_collateral: 9, num_stablecoins: 0 },
            BondCollateralInfo { bond_mint: flow_key(20), total_collateral: 1_000_290, num_stablecoins: 1 },
        ]
    );
    assert_eq!(ctx.factory_state.has_active_collateral(&flow_key(20)), Ok(true));
    assert_eq!(
        ctx.factory_state.remove_supported_bond(&flow_key(20)),
        Err(StablecoinError::ActiveCollateralExists)
    );
}

#[test]
fn deposit_against_an_untracked_bond_changes_nothing() {
    let mut ctx = mint_context(2, 15_000);
    ctx.factory_state.bond_collateral_tracking.clear();
    let before = ctx.clone();
    assert_eq!(mint_stablecoin(&mut ctx, 1_000_000), Err(StablecoinError::BondNotFound));
    assert_eq!(ctx, before);
}

#[test]
fn deposit_that_overflows_the_tracker_changes_nothing() {
    let mut ctx = mint_context(2, 15_000);
    ctx.factory_state.bond_collateral_tracking[0].total_collateral = u64::MAX - 999_999;
    let before = ctx.clone();
    assert_eq!(mint_stablecoin(&mut ctx, 1_000_000), Err(StablecoinError::MathOverflow));
    assert_eq!(ctx, before);
    assert!(mint_stablecoin(&mut ctx, 999_999).is_ok());
    assert_eq!(ctx.factory_state.bond_collateral_tracking[0].total_collateral, u64::MAX);
}

#[test]
fn withdrawal_is_taken_from_what_is_counted_against_the_bond() {
    let mut minted = mint_context(1, 10_000);
    mint_stablecoin(&mut minted, 500).unwrap();
    assert_eq!(minted.factory_state.bond_collateral_tracking[0].total_collateral, 540);
    let mut ctx = burn_context(&minted, 500, 500);
    burn_stablecoin(&mut ctx, 200).unwrap();
    assert_eq!(ctx.factory_state.bond_collateral_tracking[0].total_collateral, 340);
    assert_eq!(ctx.factory_state.bond_collateral_tracking[0].num_stablecoins, 1);
    burn_stablecoin(&mut ctx, 300).unwrap();
    assert_eq!(ctx.factory_state.bond_collateral_tracking[0].total_collateral, 40);
}

#[test]
fn withdrawal_beyond_what_is_counted_changes_nothing() {
    let mut minted = mint_context(1, 10_000);
    mint_stablecoin(&mut minted, 500).unwrap();
    let mut ctx = burn_context(&minted, 500, 500);
    ctx.factory_state.bond_collateral_tracking[0].total_collateral = 199;
    let before = ctx.clone();
    assert_eq!(burn_stablecoin(&mut ctx, 200), Err(StablecoinError::InsufficientCollateral));
    assert_eq!(ctx, before);
    ctx.factory_state.bond_collateral_tracking.clear();
    let before = ctx.clone();
    assert_eq!(burn_stablecoin(&mut ctx, 200), Err(StablecoinError::BondNotFound));
    assert_eq!(ctx, before);
}

#[test]
fn bond_can_be_removed_once_everything_is_redeemed() {
    let mut minted = mint_context(1, 10_000);
    minted.factory_state.bond_collateral_tracking[0].total_collateral = 0;
    mint_stablecoin(&mut minted, 500).unwrap();
    let mut ctx = burn_context(&minted, 500, 500);
    burn_stablecoin(&mut ctx, 499).unwrap();
    assert_eq!(
        ctx.factory_state.clone().remove_supported_bond(&flow_key(20)),
        Err(StablecoinError::ActiveCollateralExists)
    );
    ctx.factory_state.allowed_bond_configs[0].min_redemption_amount = 1;
    burn_stablecoin(&mut ctx, 1).unwrap();
    assert_eq!(ctx.factory_state.has_active_collateral(&flow_key(20)), Ok(false));
    assert_eq!(ctx.factory_state.remove_supported_bond(&flow_key(20)), Ok(()));
    assert!(ctx.factory_state.bond_collateral_tracking.is_empty());
}

#[test]
fn mint_needs_the_identity_check_of_the_depositor() {
    let mut ctx = mint_context(2, 15_000);
    ctx.kyc_info.key = kyc_of(&flow_key(11));
    let before = ctx.clone();
    assert_eq!(mint_stablecoin(&mut ctx, 1_000_000), Err(StablecoinError::InvalidKycAccount));
    assert_eq!(ctx, before);
    // the wallet itself is not the account of its identity check
    ctx.kyc_info.key = flow_key(10);
    assert_eq!(mint_stablecoin(&mut ctx, 1_000_000), Err(StablecoinError::InvalidKycAccount));

    let mut ctx = mint_context(2, 15_000);
    ctx.kyc_info.owner = flow_key(77);
    assert_eq!(mint_stablecoin(&mut ctx, 1_000_000), Err(StablecoinError::InvalidKycAccount));
}

#[test]
fn mint_is_decided_with_the_address_it_is_given() {
    let mut ctx = mint_context(2, 15_000);
    ctx.kyc_info.key = flow_key(90);
    assert_eq!(
        mint_stablecoin_with(&mut ctx, 1_000_000, &flow_key(91)),
        Err(StablecoinError::InvalidKycAccount)
    );
    assert_eq!(ctx.validate_with(1_000_000, &flow_key(90)), Ok(()));
    let receipt = mint_stablecoin_with(&mut ctx, 1_000_000, &flow_key(90)).unwrap();
    assert_eq!(receipt.event.mint_amount, 1_333_333);
}

#[test]
fn mint_below_the_minimum_is_refused() {
    let mut ctx = mint_context(2, 15_000);
    assert_eq!(mint_stablecoin(&mut ctx, 99), Err(StablecoinError::DepositTooSmall));
    assert!(mint_stablecoin(&mut ctx, 100).is_ok());
}

#[test]
fn mint_against_an_unregistered_bond_is_refused() {
    let mut ctx = mint_context(2, 15_000);
    ctx.factory_state.allowed_bond_configs.clear();
    assert_eq!(mint_stablecoin(&mut ctx, 1_000_000), Err(StablecoinError::BondNotFound));
}

#[test]
fn mint_at_a_zero_price_is_refused() {
    let mut ctx = mint_context(0, 15_000);
    let before = ctx.clone();
    assert_eq!(ctx.get_oracle_price(), Err(StablecoinError::InvalidOraclePrice));
    assert_eq!(mint_stablecoin(&mut ctx, 1_000_000), Err(StablecoinError::InvalidOraclePrice));
    assert_eq!(ctx, before);
}

#[test]
fn mint_takes_the_magnitude_of_a_negative_mantissa() {
    let mut ctx = mint_context(-2, 15_000);
    assert_eq!(ctx.get_oracle_price(), Ok(2_000_000));
    assert_eq!(mint_stablecoin(&mut ctx, 1_000_000).unwrap().event.mint_amount, 1_333_333);
}

#[test]
fn mint_with_an_unset_ratio_overflows() {
    let mut ctx = mint_context(2, 0);
    assert_eq!(mint_stablecoin(&mut ctx, 1_000_000), Err(StablecoinError::MathOverflow));
}

#[test]
fn mint_that_overflows_the_fee_count_changes_nothing() {
    let mut ctx = mint_context(2, 15_000);
    ctx.sol_fee_vault.total_fees_collected = u64::MAX - 3_998;
    let before = ctx.clone();
    assert_eq!(mint_stablecoin(&mut ctx, 1_000_000), Err(StablecoinError::MathOverflow));
    assert_eq!(ctx, before);
    ctx.sol_fee_vault.total_fees_collected = u64::MAX - 3_999;
    assert!(mint_stablecoin(&mut ctx, 1_000_000).is_ok());
    assert_eq!(ctx.sol_fee_vault.total_fees_collected, u64::MAX);
}

#[test]
fn mint_into_a_full_ledger_changes_nothing() {
    let mut ctx = mint_context(2, 15_000);
    for n in 0..100u8 {
        ctx.stablecoin_state.user_shares.push(UserShare {
            owner: flow_key(100 + n),
            bond_amount: 0,
            mint_amount: 0,
            timestamp: 0,
        });
    }
    let before = ctx.clone();
    assert_eq!(mint_stablecoin(&mut ctx, 1_000_000), Err(StablecoinError::TooManyUsers));
    assert_eq!(ctx, before);
}

#[test]
fn mint_is_refused_where_the_accounts_do_not_fit() {
    let mut ctx = mint_context(2, 15_000);
    ctx.stablecoin_state.is_paused = true;
    assert_eq!(ctx.check_accounts(), Err(StablecoinError::StablecoinPaused));
    assert_eq!(mint_tokens(&mut ctx, 1_000_000), Err(StablecoinError::StablecoinPaused));

    let mut ctx = mint_context(2, 15_000);
    ctx.user_bond_account.owner = flow_key(11);
    assert_eq!(mint_tokens(&mut ctx, 1_000_000), Err(StablecoinError::InvalidTokenAccountOwner));

    let mut ctx = mint_context(2, 15_000);
    ctx.user_bond_account.mint = flow_key(21);
    let before = ctx.clone();
    assert_eq!(mint_tokens(&mut ctx, 1_000_000), Err(StablecoinError::InvalidBondMint));
    assert_eq!(ctx, before);

    let mut ctx = mint_context(2, 15_000);
    assert_eq!(ctx.check_accounts(), Ok(()));
    assert_eq!(mint_tokens(&mut ctx, 1_000_000).unwrap().event.mint_amount, 1_333_333);
}

#[test]
fn burn_returns_collateral_for_the_supply() {
    let mut minted = mint_context(2, 15_000);
    mint_stablecoin(&mut minted, 1_000_000).unwrap();
    let mut ctx = burn_context(&minted, 1_333_333, 1_000_000);
    let before = ctx.clone();
    assert_eq!(
        burn_stablecoin(&mut ctx, 1_333_333),
        Ok(BurnReceipt {
            fee_amount: 3_999,
            event: StablecoinBurned {
                user: flow_key(10),
                mint: flow_key(40),
                bond_amount: 999_999,
                stablecoin_amount: 1_333_333,
                bond_price: 2_000_000,
                timestamp: NOW + 60,
            },
        })
    );
    // one unit of collateral stays behind: both conversions round down
    let mut expected = before;
    expected.stablecoin_state.user_shares =
        vec![UserShare { owner: flow_key(10), bond_amount: 1, mint_amount: 0, timestamp: NOW + 60 }];
    expected.stablecoin_state.total_supply = 0;
    expected.stablecoin_state.total_collateral = 1;
    expected.stablecoin_state.last_updated = NOW + 60;
    expected.factory_state.bond_collateral_tracking[0].total_collateral = 41;
    assert_eq!(ctx, expected);
}

#[test]
fn depositor_who_redeems_everything_leaves_the_ledger() {
    let mut minted = mint_context(1, 10_000);
    assert_eq!(mint_stablecoin(&mut minted, 500).unwrap().event.mint_amount, 500);
    let other = flow_key(12);
    minted.stablecoin_state.credit(other, 9, 9, NOW).unwrap();
    let mut ctx = burn_context(&minted, 500, 509);
    let receipt = burn_stablecoin(&mut ctx, 500).unwrap();
    assert_eq!(receipt.event.bond_amount, 500);
    assert!(!ctx.stablecoin_state.has_position(&flow_key(10)));
    assert_eq!(
        ctx.stablecoin_state.user_shares,
        vec![UserShare { owner: other, bond_amount: 9, mint_amount: 9, timestamp: NOW }]
    );
    assert_eq!(ctx.stablecoin_state.total_supply, 9);
    assert_eq!(ctx.stablecoin_state.total_collateral, 9);
}

#[test]
fn burn_below_the_minimum_is_refused() {
    let mut minted = mint_context(2, 15_000);
    mint_stablecoin(&mut minted, 1_000_000).unwrap();
    let mut ctx = burn_context(&minted, 1_333_333, 1_000_000);
    assert_eq!(burn_stablecoin(&mut ctx, 49), Err(StablecoinError::RedeemAmountTooSmall));
    assert!(burn_stablecoin(&mut ctx, 50).is_ok());
}

#[test]
fn burn_of_more_than_is_held_is_refused() {
    let mut minted = mint_context(2, 15_000);
    mint_stablecoin(&mut minted, 1_000_000).unwrap();
    let mut ctx = burn_context(&minted, 999, 1_000_000);
    let before = ctx.clone();
    assert_eq!(burn_stablecoin(&mut ctx, 1_000), Err(StablecoinError::InsufficientStablecoinBalance));
    assert_eq!(ctx, before);
}

#[test]
fn burn_of_more_than_the_vault_covers_is_refused() {
    let mut minted = mint_context(2, 15_000);
    mint_stablecoin(&mut minted, 1_000_000).unwrap();
    // 1_000 of supply return 750 bonds at this price and ratio
    let mut ctx = burn_context(&minted, 1_333_333, 749);
    assert_eq!(ctx.calculate_bond_return(1_000, 2_000_000, 15_000), Ok(750));
    assert_eq!(burn_stablecoin(&mut ctx, 1_000), Err(StablecoinError::InsufficientCollateral));
    ctx.collateral_vault.amount = 750;
    assert_eq!(burn_stablecoin(&mut ctx, 1_000).unwrap().event.bond_amount, 750);
}

#[test]
fn burn_beyond_the_depositors_share_is_refused() {
    let mut minted = mint_context(2, 15_000);
    mint_stablecoin(&mut minted, 1_000_000).unwrap();
    // at half the price the same supply asks for twice the collateral
    let mut ctx = burn_context(&minted, 1_333_333, 5_000_000);
    ctx.oracle.mantissa = 1;
    let before = ctx.clone();
    assert_eq!(burn_stablecoin(&mut ctx, 1_333_333), Err(StablecoinError::InsufficientUserShare));
    assert_eq!(ctx, before);
}

#[test]
fn burn_by_a_stranger_to_the_ledger_is_refused() {
    let mut minted = mint_context(2, 15_000);
    mint_stablecoin(&mut minted, 1_000_000).unwrap();
    let mut ctx = burn_context(&minted, 1_333_333, 1_000_000);
    ctx.user = flow_key(11);
    ctx.kyc_info.key = kyc_of(&flow_key(11));
    assert_eq!(burn_stablecoin(&mut ctx, 1_000), Err(StablecoinError::UserShareNotFound));
}

#[test]
fn burn_checks_identity_freshness_and_price() {
    let mut minted = mint_context(2, 15_000);
    mint_stablecoin(&mut minted, 1_000_000).unwrap();

    let mut ctx = burn_context(&minted, 1_333_333, 1_000_000);
    ctx.kyc_info.owner = flow_key(77);
    assert_eq!(burn_stablecoin(&mut ctx, 1_000), Err(StablecoinError::InvalidKycAccount));
    assert_eq!(
        burn_stablecoin_with(&mut ctx, 1_000, &flow_key(78)),
        Err(StablecoinError::InvalidKycAccount)
    );

    let mut ctx = burn_context(&minted, 1_333_333, 1_000_000);
    ctx.oracle.round_open_timestamp = ctx.unix_timestamp - 300;
    ctx.stablecoin_state.last_price_update = 0;
    assert_eq!(ctx.validate(1_000), Ok(()));
    ctx.oracle.round_open_timestamp = ctx.unix_timestamp - 301;
    ctx.stablecoin_state.last_price_update = ctx.unix_timestamp;
    let before = ctx.clone();
    assert_eq!(burn_stablecoin(&mut ctx, 1_000), Err(StablecoinError::StaleOraclePrice));
    assert_eq!(ctx, before);

    let mut ctx = burn_context(&minted, 1_333_333, 1_000_000);
    ctx.oracle.mantissa = 0;
    assert_eq!(burn_stablecoin(&mut ctx, 1_000), Err(StablecoinError::InvalidOraclePrice));

    let mut ctx = burn_context(&minted, 1_333_333, 1_000_000);
    ctx.factory_state.allowed_bond_configs.clear();
    assert_eq!(burn_stablecoin(&mut ctx, 1_000), Err(StablecoinError::BondNotFound));
}

#[test]
fn burn_is_refused_where_the_accounts_do_not_fit() {
    let mut minted = mint_context(2, 15_000);
    mint_stablecoin(&mut minted, 1_000_000).unwrap();

    let mut ctx = burn_context(&minted, 1_333_333, 1_000_000);
    ctx.stablecoin_state.is_paused = true;
    assert_eq!(burn_tokens(&mut ctx, 1_000), Err(StablecoinError::StablecoinPaused));

    let mut ctx = burn_context(&minted, 1_333_333, 1_000_000);
    ctx.user_bond_account.owner = flow_key(11);
    assert_eq!(burn_tokens(&mut ctx, 1_000), Err(StablecoinError::InvalidTokenAccountOwner));

    let mut ctx = burn_context(&minted, 1_333_333, 1_000_000);
    ctx.user_bond_account.mint = flow_key(21);
    assert_eq!(burn_tokens(&mut ctx, 1_000), Err(StablecoinError::InvalidBondMint));

    let mut ctx = burn_context(&minted, 1_333_333, 1_000_000);
    assert_eq!(burn_tokens(&mut ctx, 1_000).unwrap().event.bond_amount, 750);
}

#[test]
fn aggregates_follow_the_ledger_through_mints_and_burns() {
    let mut ctx = mint_context(2, 15_000);
    let users = [flow_key(10), flow_key(11), flow_key(12)];
    let deposits: [u64; 6] = [1_000_000, 250, 77_777, 100, 999_999, 31_415];
    for (n, deposit) in deposits.iter().enumerate() {
        ctx.user = users[n % 3];
        ctx.kyc_info.key = kyc_of(&ctx.user);
        ctx.unix_timestamp += 1;
        mint_stablecoin(&mut ctx, *deposit).unwrap();
        let bonds: u64 = ctx.stablecoin_state.user_shares.iter().map(|s| s.bond_amount).sum();
        let supply: u64 = ctx.stablecoin_state.user_shares.iter().map(|s| s.mint_amount).sum();
        assert_eq!(ctx.stablecoin_state.total_collateral, bonds);
        assert_eq!(ctx.stablecoin_state.total_supply, supply);
    }
    let mut burn = burn_context(&ctx, u64::MAX, u64::MAX);
    for (n, amount) in [500u64, 1_333, 50, 103_702].iter().enumerate() {
        burn.user = users[n % 3];
        burn.kyc_info.key = kyc_of(&burn.user);
        burn_stablecoin(&mut burn, *amount).unwrap();
        let bonds: u64 = burn.stablecoin_state.user_shares.iter().map(|s| s.bond_amount).sum();
        let supply: u64 = burn.stablecoin_state.user_shares.iter().map(|s| s.mint_amount).sum();
        assert_eq!(burn.stablecoin_state.total_collateral, bonds);
        assert_eq!(burn.stablecoin_state.total_supply, supply);
        assert_eq!(burn.factory_state.bond_collateral_tracking[0].total_collateral, bonds + 40);
    }
}
