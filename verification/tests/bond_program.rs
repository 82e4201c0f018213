use anchor_lang::prelude::Pubkey;
use anchor_lang::AnchorSerialize;
use solana_stablecoin::accounts::AccountSnapshot;
use solana_stablecoin::address::Address;
use solana_stablecoin::constants::USDC_MINT;
use solana_stablecoin::contexts::add_supported_bond;
use solana_stablecoin::contexts::register_bond;
use solana_stablecoin::contexts::AddSupportedBond;
use solana_stablecoin::errors::InstructionError;
use solana_stablecoin::errors::StablecoinError;
use solana_stablecoin::events::BondAdded;
use solana_stablecoin::stablebond::interpret_bond;
use solana_stablecoin::stablebond::stablebond_program;
use solana_stablecoin::stablebond::BondRecord;
use solana_stablecoin::stablebond::PaymentFeedType;
use solana_stablecoin::stablebond::STABLEBOND_PROGRAM_ID;
use solana_stablecoin::states::factory_state::check_payment_feed;
use solana_stablecoin::states::FactoryState;
use solana_stablecoin::states::StablebondConfig;
use stablebond_sdk::accounts::Bond;
use stablebond_sdk::accounts::PaymentFeed;
use stablebond_sdk::types::Discriminator;
use std::str::FromStr;

fn bond_key(n: u8) -> Address {
    Address::new([n; 32])
}

fn outside(address: &Address) -> Pubkey {
    Pubkey::new_from_array(address.to_bytes())
}

fn bond_bytes(mint: &Address, feed: stablebond_sdk::types::PaymentFeedType) -> Vec<u8> {
    Bond {
        discriminator: Discriminator::Bond,
        mint: outside(mint),
        version: 1,
        payment_feed_type: feed,
        is_authority_multisig: false,
        padding0: [0; 2],
        bond_fee_bps: 0,
        issuance_number: 3,
        cutoff_in_seconds: 0,
    }
    .try_to_vec()
    .unwrap()
}

fn feed_bytes(payment_mint: &Address, feed: stablebond_sdk::types::PaymentFeedType) -> Vec<u8> {
    PaymentFeed {
        discriminator: Discriminator::PaymentFeed,
        version: 1,
        payment_mint: outside(payment_mint),
        payment_decimals: 6,
        base_price_feed: outside(&bond_key(70)),
        quote_price_feed: outside(&bond_key(71)),
        payment_feed_type: feed,
    }
    .try_to_vec()
    .unwrap()
}

fn bond_account(mint: &Address, feed: stablebond_sdk::types::PaymentFeedType) -> AccountSnapshot {
    AccountSnapshot {
        key: Address::new(stablebond_sdk::find_bond_pda(outside(mint)).0.to_bytes()),
        owner: stablebond_program(),
        data: bond_bytes(mint, feed),
    }
}

fn feed_account(payment_mint: &Address, feed: stablebond_sdk::types::PaymentFeedType) -> AccountSnapshot {
    AccountSnapshot {
        key: Address::new(stablebond_sdk::find_payment_feed_pda(feed.clone()).0.to_bytes()),
        owner: stablebond_program(),
        data: feed_bytes(payment_mint, feed),
    }
}

fn factory_with(configs: Vec<StablebondConfig>) -> FactoryState {
    FactoryState {
        admin: bond_key(1),
        fee_vault: bond_key(2),
        is_paused: false,
        min_collateral_ratio: 15_000,
        base_fee_rate: 30,
        stablecoin_count: 0,
        last_update: 0,
        allowed_bond_configs: configs,
        bond_collateral_tracking: Vec::new(),
        authorized_collectors: vec![bond_key(1)],
        protocol_version: 1,
        bump: 254,
        reserved: [0; 32],
    }
}

fn listed(mint: &Address, enabled: bool) -> StablebondConfig {
    StablebondConfig {
        bond_mint: *mint,
        payment_mint: bond_key(30),
        admin: bond_key(1),
        min_creation_amount: 100,
        min_redemption_amount: 50,
        is_enabled: enabled,
        custom_fee_rate: None,
    }
}

#[test]
fn program_identity_is_the_bond_programs() {
    assert_eq!(STABLEBOND_PROGRAM_ID, stablebond_sdk::ID.to_bytes());
    assert_eq!(stablebond_program().to_bytes(), stablebond_sdk::ID.to_bytes());
}

#[test]
fn yield_mint_is_the_dollar_coin() {
    let mint = Pubkey::from_str("EPjFWdd5AufqSSqeM2qN1xzybapC8G4wEGGkZwyTDt1v").unwrap();
    assert_eq!(USDC_MINT, mint.to_bytes());
}

#[test]
fn feed_kinds_are_numbered_as_the_bond_program_stores_them() {
    let kinds = [
        (PaymentFeedType::UsdcUsd, stablebond_sdk::types::PaymentFeedType::UsdcUsd),
        (PaymentFeedType::UsdcMxn, stablebond_sdk::types::PaymentFeedType::UsdcMxn),
        (PaymentFeedType::SwitchboardUsdcUsd, stablebond_sdk::types::PaymentFeedType::SwitchboardUsdcUsd),
        (PaymentFeedType::SwitchboardUsdcMxn, stablebond_sdk::types::PaymentFeedType::SwitchboardUsdcMxn),
        (PaymentFeedType::Stub, stablebond_sdk::types::PaymentFeedType::Stub),
        (PaymentFeedType::SwitchboardUsdcBrl, stablebond_sdk::types::PaymentFeedType::SwitchboardUsdcBrl),
        (PaymentFeedType::SwitchboardUsdcEur, stablebond_sdk::types::PaymentFeedType::SwitchboardUsdcEur),
        (PaymentFeedType::SwitchboardUsdcGbp, stablebond_sdk::types::PaymentFeedType::SwitchboardUsdcGbp),
        (
            PaymentFeedType::SwitchboardOnDemandUsdcMxn,
            stablebond_sdk::types::PaymentFeedType::SwitchboardOnDemandUsdcMxn,
        ),
        (
            PaymentFeedType::SwitchboardOnDemandUsdcBrl,
            stablebond_sdk::types::PaymentFeedType::SwitchboardOnDemandUsdcBrl,
        ),
        (
            PaymentFeedType::SwitchboardOnDemandUsdcEur,
            stablebond_sdk::types::PaymentFeedType::SwitchboardOnDemandUsdcEur,
        ),
        (
            PaymentFeedType::SwitchboardOnDemandUsdcGbp,
            stablebond_sdk::types::PaymentFeedType::SwitchboardOnDemandUsdcGbp,
        ),
        (
            PaymentFeedType::SwitchboardOnDemandUsdcUsd,
            stablebond_sdk::types::PaymentFeedType::SwitchboardOnDemandUsdcUsd,
        ),
        (
            PaymentFeedType::SwitchboardOnDemandUsdcKrw,
            stablebond_sdk::types::PaymentFeedType::SwitchboardOnDemandUsdcKrw,
        ),
    ];
    for (number, (mine, theirs)) in kinds.iter().enumerate() {
        assert_eq!(mine.index() as usize, number);
        assert_eq!(theirs.try_to_vec().unwrap(), vec![number as u8]);
        assert_eq!(PaymentFeedType::from_index(number as u8), Some(*mine));
    }
    assert_eq!(PaymentFeedType::from_index(14), None);
    assert_eq!(PaymentFeedType::from_index(255), None);
}

#[test]
fn dollar_feeds_are_the_ones_without_conversion() {
    assert!(PaymentFeedType::UsdcUsd.is_usd_quoted());
    assert!(PaymentFeedType::SwitchboardUsdcUsd.is_usd_quoted());
    assert!(PaymentFeedType::SwitchboardOnDemandUsdcUsd.is_usd_quoted());
    assert!(PaymentFeedType::Stub.is_usd_quoted());
    assert!(!PaymentFeedType::UsdcMxn.is_usd_quoted());
    assert!(!PaymentFeedType::SwitchboardUsdcMxn.is_usd_quoted());
    assert!(!PaymentFeedType::SwitchboardUsdcBrl.is_usd_quoted());
    assert!(!PaymentFeedType::SwitchboardUsdcEur.is_usd_quoted());
    assert!(!PaymentFeedType::SwitchboardUsdcGbp.is_usd_quoted());
    assert!(!PaymentFeedType::SwitchboardOnDemandUsdcMxn.is_usd_quoted());
    assert!(!PaymentFeedType::SwitchboardOnDemandUsdcBrl.is_usd_quoted());
    assert!(!PaymentFeedType::SwitchboardOnDemandUsdcEur.is_usd_quoted());
    assert!(!PaymentFeedType::SwitchboardOnDemandUsdcGbp.is_usd_quoted());
    assert!(!PaymentFeedType::SwitchboardOnDemandUsdcKrw.is_usd_quoted());
}

#[test]
fn decoded_record_with_unknown_kind_cannot_be_used() {
    let known = Some(BondRecord { mint: bond_key(20), payment_feed_index: 3 });
    assert_eq!(interpret_bond(&known), Ok(PaymentFeedType::SwitchboardUsdcMxn));
    let unknown = Some(BondRecord { mint: bond_key(20), payment_feed_index: 14 });
    assert_eq!(interpret_bond(&unknown), Err(InstructionError::AccountData));
    assert_eq!(interpret_bond(&None), Err(InstructionError::AccountData));
}

#[test]
fn supported_bond_is_recognised_at_its_own_account() {
    let mint = bond_key(20);
    let factory = factory_with(vec![listed(&mint, true)]);
    let account = bond_account(&mint, stablebond_sdk::types::PaymentFeedType::UsdcMxn);
    assert_eq!(factory.is_bond_supported(&mint, &account), Ok(true));
}

#[test]
fn unlisted_or_disabled_bond_is_not_supported() {
    let mint = bond_key(20);
    let account = bond_account(&mint, stablebond_sdk::types::PaymentFeedType::UsdcMxn);
    assert_eq!(factory_with(Vec::new()).is_bond_supported(&mint, &account), Ok(false));
    assert_eq!(factory_with(vec![listed(&mint, false)]).is_bond_supported(&mint, &account), Ok(false));
}

#[test]
fn bond_at_another_account_is_refused() {
    let mint = bond_key(20);
    let factory = factory_with(vec![listed(&mint, true)]);
    // the account of another bond, and the mint itself, are not the bond's account
    let other = bond_account(&bond_key(21), stablebond_sdk::types::PaymentFeedType::UsdcMxn);
    assert_eq!(
        factory.is_bond_supported(&mint, &other),
        Err(InstructionError::Rule(StablecoinError::InvalidBondAccount))
    );
    let mut at_mint = bond_account(&mint, stablebond_sdk::types::PaymentFeedType::UsdcMxn);
    at_mint.key = mint;
    assert_eq!(
        factory.is_bond_supported(&mint, &at_mint),
        Err(InstructionError::Rule(StablecoinError::InvalidBondAccount))
    );
}

#[test]
fn bond_account_that_does_not_decode_is_refused() {
    let mint = bond_key(20);
    let factory = factory_with(vec![listed(&mint, true)]);
    let mut account = bond_account(&mint, stablebond_sdk::types::PaymentFeedType::UsdcMxn);
    account.data.push(0);
    assert_eq!(factory.is_bond_supported(&mint, &account), Err(InstructionError::AccountData));
    account.data = Vec::new();
    assert_eq!(factory.is_bond_supported(&mint, &account), Err(InstructionError::AccountData));
    account.data = bond_bytes(&mint, stablebond_sdk::types::PaymentFeedType::UsdcMxn);
    account.data[34] = 14;
    assert_eq!(factory.is_bond_supported(&mint, &account), Err(InstructionError::AccountData));
}

#[test]
fn support_is_decided_from_what_was_derived_and_decoded() {
    let mint = bond_key(20);
    let factory = factory_with(vec![listed(&mint, true)]);
    assert_eq!(factory.is_bond_supported_with(&mint, &bond_key(50), &bond_key(50), true), Ok(true));
    assert_eq!(
        factory.is_bond_supported_with(&mint, &bond_key(50), &bond_key(51), true),
        Err(InstructionError::Rule(StablecoinError::InvalidBondAccount))
    );
    assert_eq!(
        factory.is_bond_supported_with(&mint, &bond_key(50), &bond_key(50), false),
        Err(InstructionError::AccountData)
    );
    assert_eq!(factory.is_bond_supported_with(&bond_key(21), &bond_key(50), &bond_key(51), false), Ok(false));
}

#[test]
fn bond_is_valid_with_the_feed_of_its_kind() {
    let mint = bond_key(20);
    let factory = factory_with(vec![listed(&mint, true)]);
    let bond = bond_account(&mint, stablebond_sdk::types::PaymentFeedType::SwitchboardUsdcEur);
    let feed = feed_account(&bond_key(30), stablebond_sdk::types::PaymentFeedType::SwitchboardUsdcEur);
    assert_eq!(factory.validate_bond(&mint, &bond, &feed), Ok(()));
}

#[test]
fn bond_is_invalid_with_the_feed_of_another_kind() {
    let mint = bond_key(20);
    let factory = factory_with(vec![listed(&mint, true)]);
    let bond = bond_account(&mint, stablebond_sdk::types::PaymentFeedType::SwitchboardUsdcEur);
    let feed = feed_account(&bond_key(30), stablebond_sdk::types::PaymentFeedType::SwitchboardUsdcGbp);
    assert_eq!(
        factory.validate_bond(&mint, &bond, &feed),
        Err(InstructionError::Rule(StablecoinError::InvalidPaymentFeed))
    );
}

#[test]
fn bond_validation_reports_the_first_failure() {
    let mint = bond_key(20);
    let bond = bond_account(&mint, stablebond_sdk::types::PaymentFeedType::UsdcUsd);
    let feed = feed_account(&bond_key(30), stablebond_sdk::types::PaymentFeedType::UsdcUsd);
    assert_eq!(
        factory_with(Vec::new()).validate_bond(&mint, &bond, &feed),
        Err(InstructionError::Rule(StablecoinError::UnsupportedBond))
    );
    assert_eq!(
        factory_with(vec![listed(&mint, false)]).validate_bond(&mint, &bond, &feed),
        Err(InstructionError::Rule(StablecoinError::BondDisabled))
    );
    let factory = factory_with(vec![listed(&mint, true)]);
    let mut broken_bond = bond.clone();
    broken_bond.data.truncate(10);
    assert_eq!(factory.validate_bond(&mint, &broken_bond, &feed), Err(InstructionError::AccountData));
    let mut broken_feed = feed.clone();
    broken_feed.data.truncate(10);
    assert_eq!(factory.validate_bond(&mint, &bond, &broken_feed), Err(InstructionError::AccountData));
}

#[test]
fn payment_feed_must_be_the_expected_account_and_decode() {
    assert_eq!(check_payment_feed(&bond_key(60), &bond_key(60), true), Ok(()));
    assert_eq!(
        check_payment_feed(&bond_key(60), &bond_key(61), true),
        Err(InstructionError::Rule(StablecoinError::InvalidPaymentFeed))
    );
    assert_eq!(check_payment_feed(&bond_key(60), &bond_key(60), false), Err(InstructionError::AccountData));
    assert_eq!(
        check_payment_feed(&bond_key(60), &bond_key(61), false),
        Err(InstructionError::Rule(StablecoinError::InvalidPaymentFeed))
    );
}

fn addition_of(mint: &Address, feed: stablebond_sdk::types::PaymentFeedType) -> AddSupportedBond {
    AddSupportedBond {
        admin: bond_key(1),
        factory_state: factory_with(Vec::new()),
        bond_mint: *mint,
        bond_info: bond_account(mint, feed.clone()),
        payment_feed_info: feed_account(&bond_key(33), feed),
        unix_timestamp: 1_700_000_000,
    }
}

#[test]
fn bond_is_registered_with_the_payment_mint_of_its_feed() {
    let mint = bond_key(20);
    let mut ctx = addition_of(&mint, stablebond_sdk::types::PaymentFeedType::SwitchboardOnDemandUsdcKrw);
    assert_eq!(
        add_supported_bond(&mut ctx, 100, 50),
        Ok(BondAdded {
            bond_mint: mint,
            payment_mint: bond_key(33),
            admin: bond_key(1),
            timestamp: 1_700_000_000,
        })
    );
    assert_eq!(
        ctx.factory_state.allowed_bond_configs,
        vec![StablebondConfig {
            bond_mint: mint,
            payment_mint: bond_key(33),
            admin: bond_key(1),
            min_creation_amount: 100,
            min_redemption_amount: 50,
            is_enabled: true,
            custom_fee_rate: None,
        }]
    );
    assert_eq!(ctx.factory_state.find_tracking(&mint), Some(0));
    assert_eq!(ctx.factory_state.bond_collateral_tracking[0].total_collateral, 0);
}

#[test]
fn registration_is_refused_at_the_wrong_accounts() {
    let mint = bond_key(20);
    let mut ctx = addition_of(&mint, stablebond_sdk::types::PaymentFeedType::UsdcMxn);
    ctx.bond_info.key = bond_key(99);
    let before = ctx.clone();
    assert_eq!(
        add_supported_bond(&mut ctx, 100, 50),
        Err(InstructionError::Rule(StablecoinError::InvalidBondAccount))
    );
    assert_eq!(ctx, before);

    let mut ctx = addition_of(&mint, stablebond_sdk::types::PaymentFeedType::UsdcMxn);
    ctx.payment_feed_info = feed_account(&bond_key(33), stablebond_sdk::types::PaymentFeedType::UsdcUsd);
    let before = ctx.clone();
    assert_eq!(
        add_supported_bond(&mut ctx, 100, 50),
        Err(InstructionError::Rule(StablecoinError::InvalidPaymentFeed))
    );
    assert_eq!(ctx, before);
}

#[test]
fn registration_is_refused_where_an_account_does_not_decode() {
    let mint = bond_key(20);
    let mut ctx = addition_of(&mint, stablebond_sdk::types::PaymentFeedType::UsdcMxn);
    ctx.bond_info.data = vec![1, 2, 3];
    assert_eq!(add_supported_bond(&mut ctx, 100, 50), Err(InstructionError::AccountData));

    let mut ctx = addition_of(&mint, stablebond_sdk::types::PaymentFeedType::UsdcMxn);
    ctx.payment_feed_info.data = vec![1, 2, 3];
    let before = ctx.clone();
    assert_eq!(add_supported_bond(&mut ctx, 100, 50), Err(InstructionError::AccountData));
    assert_eq!(ctx, before);
}

#[test]
fn registration_is_refused_by_a_full_registry() {
    let mint = bond_key(20);
    let mut ctx = addition_of(&mint, stablebond_sdk::types::PaymentFeedType::UsdcMxn);
    for n in 0..10u8 {
        ctx.factory_state.allowed_bond_configs.push(listed(&bond_key(100 + n), true));
    }
    let before = ctx.clone();
    assert_eq!(
        add_supported_bond(&mut ctx, 100, 50),
        Err(InstructionError::Rule(StablecoinError::TooManyBonds))
    );
    assert_eq!(ctx, before);
}

#[test]
fn registration_once_the_record_is_read() {
    let mint = bond_key(20);
    let mut ctx = addition_of(&mint, stablebond_sdk::types::PaymentFeedType::UsdcMxn);
    let feed_key = ctx.payment_feed_info.key;
    assert_eq!(
        register_bond(&mut ctx, 1, 2, &bond_key(98), &Some(bond_key(33))),
        Err(InstructionError::Rule(StablecoinError::InvalidPaymentFeed))
    );
    assert_eq!(register_bond(&mut ctx, 1, 2, &feed_key, &None), Err(InstructionError::AccountData));
    assert_eq!(
        register_bond(&mut ctx, 1, 2, &feed_key, &Some(bond_key(34))),
        Ok(BondAdded { bond_mint: mint, payment_mint: bond_key(34), admin: bond_key(1), timestamp: 1_700_000_000 })
    );
    assert_eq!(
        register_bond(&mut ctx, 1, 2, &feed_key, &Some(bond_key(34))),
        Err(InstructionError::Rule(StablecoinError::BondAlreadyExists))
    );
}
