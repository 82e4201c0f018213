//! Creating a stablecoin against a supported bond.

use vstd::prelude::*;
use vstd::utf8::encode_utf8;
use crate::accounts::AccountSnapshot;
use crate::address::Address;
use crate::constants::MAX_ALLOWED_COLLATERAL_RATIO;
use crate::constants::MAX_NAME_LEN;
use crate::constants::MAX_SYMBOL_LEN;
use crate::constants::MIN_ALLOWED_COLLATERAL_RATIO;
use crate::constants::USDC_MINT;
use crate::errors::InstructionError;
use crate::errors::StablecoinError;
use crate::events::StablecoinCreated;
use crate::stablebond::bond_address;
use crate::stablebond::bond_pda;
use crate::stablebond::decode_bond;
use crate::stablebond::decoded_bond;
use crate::states::factory_state::FactoryState;
use crate::states::stablecoin::StablecoinState;
use crate::states::user::UserShare;
use crate::states::user::UserState;

verus! {

/// What creating a stablecoin works on.
#[derive(Clone, Debug, PartialEq, Eq)]
pub struct CreateStablecoin {
    /// The creator, who signs.
    pub creator: Address,
    pub factory_state: FactoryState,
    /// The record of the stablecoin, newly made.
    pub stablecoin_state: StablecoinState,
    /// The record of the creator as a depositor, newly made.
    pub creator_state: UserState,
    /// The mint of the stablecoin.
    pub mint: Address,
    /// The mint in which yield is paid.
    pub yield_mint: Address,
    /// The address of the vault that will hold the collateral.
    pub collateral_vault: Address,
    /// The mint of the bond used as collateral.
    pub bond_mint: Address,
    /// The account said to hold the record of the bond.
    pub bond_info: AccountSnapshot,
    /// The bump seed of the address of the stablecoin's record.
    pub stablecoin_state_bump: u8,
    /// The bump seed of the address of the creator's record.
    pub creator_state_bump: u8,
    /// The current time.
    pub unix_timestamp: i64,
}

/// Whether a text is not empty and takes at most `limit` bytes.
pub open spec fn fits(text: Seq<char>, limit: usize) -> bool {
    text.len() > 0 && encode_utf8(text).len() <= limit
}

/// Whether a name and a symbol are acceptable.
pub open spec fn naming_check(name: Seq<char>, symbol: Seq<char>) -> Result<(), StablecoinError> {
    if !fits(name, MAX_NAME_LEN) {
        Err(StablecoinError::InvalidName)
    } else if !fits(symbol, MAX_SYMBOL_LEN) {
        Err(StablecoinError::InvalidSymbol)
    } else {
        Ok(())
    }
}

/// The collateral ratio a stablecoin starts with: the lowest ratio of the
/// factory, held within the bounds of the protocol.
pub open spec fn opening_ratio(min_collateral_ratio: u16) -> u16 {
    if min_collateral_ratio < MIN_ALLOWED_COLLATERAL_RATIO {
        MIN_ALLOWED_COLLATERAL_RATIO
    } else if min_collateral_ratio > MAX_ALLOWED_COLLATERAL_RATIO {
        MAX_ALLOWED_COLLATERAL_RATIO
    } else {
        min_collateral_ratio
    }
}

/// Whether a text is not empty and takes at most `limit` bytes.
pub fn text_fits(text: &str, limit: usize) -> (r: bool)
    ensures
        r == fits(text@, limit),
{
    !text.is_empty() && text.as_bytes().len() <= limit
}

/// The collateral ratio a stablecoin starts with under a factory whose lowest
/// ratio is `min_collateral_ratio`.
pub fn clamp_ratio(min_collateral_ratio: u16) -> (r: u16)
    ensures
        r == opening_ratio(min_collateral_ratio),
        MIN_ALLOWED_COLLATERAL_RATIO <= r <= MAX_ALLOWED_COLLATERAL_RATIO,
{
    if min_collateral_ratio < MIN_ALLOWED_COLLATERAL_RATIO {
        MIN_ALLOWED_COLLATERAL_RATIO
    } else if min_collateral_ratio > MAX_ALLOWED_COLLATERAL_RATIO {
        MAX_ALLOWED_COLLATERAL_RATIO
    } else {
        min_collateral_ratio
    }
}

impl CreateStablecoin {
    /// Whether the accounts fit together: the factory is not paused, and yield
    /// is paid in the expected mint.
    pub open spec fn account_check(&self) -> Result<(), StablecoinError> {
        if self.factory_state.is_paused {
            Err(StablecoinError::FactoryPaused)
        } else if self.yield_mint.bytes != USDC_MINT {
            Err(StablecoinError::InvalidUSDCMint)
        } else {
            Ok(())
        }
    }

    /// Whether a stablecoin of this name and symbol can be created against the
    /// bond, given the address at which the bond program keeps the record of
    /// the bond and whether the bond account decodes.
    pub open spec fn validation(
        &self,
        name: Seq<char>,
        symbol: Seq<char>,
        bond_account: Seq<u8>,
        record_decodes: bool,
    ) -> Result<(), InstructionError> {
        match naming_check(name, symbol) {
            Err(e) => Err(InstructionError::Rule(e)),
            Ok(_) => match self.factory_state.bond_support(
                self.bond_mint,
                self.bond_info.key,
                bond_account,
                record_decodes,
            ) {
                Err(e) => Err(e),
                Ok(supported) => if supported {
                    Ok(())
                } else {
                    Err(InstructionError::Rule(StablecoinError::UnsupportedBond))
                },
            },
        }
    }

    /// Whether the creation is accepted: the names are acceptable, the bond is
    /// supported, the count of stablecoins has room, and the collateral
    /// tracker can count one more stablecoin against the bond.
    pub open spec fn creation_check(
        &self,
        name: Seq<char>,
        symbol: Seq<char>,
        bond_account: Seq<u8>,
        record_decodes: bool,
    ) -> Result<(), InstructionError> {
        match self.validation(name, symbol, bond_account, record_decodes) {
            Err(e) => Err(e),
            Ok(_) => if self.factory_state.stablecoin_count == u32::MAX {
                Err(InstructionError::Rule(StablecoinError::MathOverflow))
            } else {
                match self.factory_state.stablecoin_counted(self.bond_mint) {
                    Err(e) => Err(InstructionError::Rule(e)),
                    Ok(_) => Ok(()),
                }
            },
        }
    }

    /// These records are `before` after the creation: the stablecoin has its
    /// names, its identities, an empty ledger, zero aggregates and its opening
    /// ratio; the creator has an empty record; the factory counts one more
    /// stablecoin, in all and against the bond.
    pub open spec fn is_creation_of(
        &self,
        before: CreateStablecoin,
        name: String,
        symbol: String,
        target_currency: String,
    ) -> bool {
        &&& self.stablecoin_state.user_shares@ == Seq::<UserShare>::empty()
        &&& self.stablecoin_state == (StablecoinState {
            name: name,
            symbol: symbol,
            original_symbol: symbol,
            target_currency: target_currency,
            creator: before.creator,
            mint: before.mint,
            yield_mint: before.yield_mint,
            total_yield_collected: 0,
            collateral_vault: before.collateral_vault,
            bond_mint: before.bond_mint,
            last_updated: before.unix_timestamp,
            last_rebase: before.unix_timestamp,
            total_rebase_amount: 0,
            user_shares: self.stablecoin_state.user_shares,
            total_supply: 0,
            total_collateral: 0,
            collateral_ratio: opening_ratio(before.factory_state.min_collateral_ratio),
            bump: before.stablecoin_state_bump,
            ..before.stablecoin_state
        })
        &&& self.creator_state == (UserState {
            bump: before.creator_state_bump,
            user: before.creator,
            stablecoin: before.mint,
            total_yield_collected: 0,
            last_yield_collection: before.unix_timestamp,
            bond_amount: 0,
            stablecoin_amount: 0,
            ..before.creator_state
        })
        &&& before.factory_state.stablecoin_counted(before.bond_mint) matches Ok(tracking)
            && self.factory_state.is_tracking_change_of(
            FactoryState {
                stablecoin_count: (before.factory_state.stablecoin_count + 1) as u32,
                ..before.factory_state
            },
            tracking,
        )
        &&& *self == (CreateStablecoin {
            stablecoin_state: self.stablecoin_state,
            creator_state: self.creator_state,
            factory_state: self.factory_state,
            ..before
        })
    }

    /// Checks that the accounts fit together.
    pub fn check_accounts(&self) -> (r: Result<(), StablecoinError>)
        ensures
            r == self.account_check(),
    {
        if self.factory_state.is_paused {
            return Err(StablecoinError::FactoryPaused);
        }
        if self.yield_mint != Address::new(USDC_MINT) {
            return Err(StablecoinError::InvalidUSDCMint);
        }
        Ok(())
    }

    /// Accepts a name and a symbol for a stablecoin against the bond, given
    /// the address at which the bond program keeps the record of the bond and
    /// whether the bond account decodes.
    pub fn validate_with(
        &self,
        name: &str,
        symbol: &str,
        _target_currency: &str,
        bond_account: &Address,
        record_decodes: bool,
    ) -> (r: Result<(), InstructionError>)
        ensures
            r == self.validation(name@, symbol@, bond_account@, record_decodes),
    {
        if !text_fits(name, MAX_NAME_LEN) {
            return Err(InstructionError::Rule(StablecoinError::InvalidName));
        }
        if !text_fits(symbol, MAX_SYMBOL_LEN) {
            return Err(InstructionError::Rule(StablecoinError::InvalidSymbol));
        }
        match self.factory_state.is_bond_supported_with(
            &self.bond_mint,
            &self.bond_info.key,
            bond_account,
            record_decodes,
        ) {
            Err(e) => Err(e),
            Ok(supported) => {
                if !supported {
                    return Err(InstructionError::Rule(StablecoinError::UnsupportedBond));
                }
                Ok(())
            },
        }
    }

    /// Accepts a name of at most 32 bytes and a symbol of at most 10, neither
    /// empty, for a stablecoin against a bond that is supported.
    pub fn validate(&self, name: &str, symbol: &str, _target_currency: &str) -> (r: Result<
        (),
        InstructionError,
    >)
        ensures
            r == self.validation(
                name@,
                symbol@,
                bond_pda(self.bond_mint@),
                decoded_bond(self.bond_info.data@).is_some(),
            ),
    {
        let expected = bond_address(&self.bond_mint);
        let record = decode_bond(&self.bond_info.data);
        self.validate_with(name, symbol, _target_currency, &expected, record.is_some())
    }
}

/// Creates the stablecoin, given the address at which the bond program keeps
/// the record of the bond and whether the bond account decodes.
///
/// Either the creation is refused and nothing changes, or the new records are
/// filled in: the ledger is empty, the aggregates are zero and the collateral
/// ratio is within the bounds of the protocol.
pub fn create_stablecoin_with(
    ctx: &mut CreateStablecoin,
    name: String,
    symbol: String,
    target_currency: String,
    bond_account: &Address,
    record_decodes: bool,
) -> (r: Result<StablecoinCreated, InstructionError>)
    ensures
        match old(ctx).creation_check(name@, symbol@, bond_account@, record_decodes) {
            Err(e) => r == Err::<StablecoinCreated, InstructionError>(e)
                && *final(ctx) == *old(ctx),
            Ok(_) => r == Ok::<StablecoinCreated, InstructionError>(
                StablecoinCreated {
                    creator: old(ctx).creator,
                    mint: old(ctx).mint,
                    bond_mint: old(ctx).bond_mint,
                    name: name,
                    symbol: symbol,
                    target_currency: target_currency,
                    timestamp: old(ctx).unix_timestamp,
                },
            ) && final(ctx).is_creation_of(*old(ctx), name, symbol, target_currency),
        },
        r.is_ok() ==> final(ctx).stablecoin_state.is_balanced()
            && final(ctx).stablecoin_state.ledger_is_sound()
            && MIN_ALLOWED_COLLATERAL_RATIO <= final(ctx).stablecoin_state.collateral_ratio
            && final(ctx).stablecoin_state.collateral_ratio <= MAX_ALLOWED_COLLATERAL_RATIO,
        old(ctx).factory_state.tracker_follows_registry() ==>
            final(ctx).factory_state.tracker_follows_registry(),
        final(ctx).factory_state.collateral_in_use(old(ctx).bond_mint)
            == old(ctx).factory_state.collateral_in_use(old(ctx).bond_mint),
        old(ctx).factory_state.registry_is_sound() ==> final(ctx).factory_state.registry_is_sound(),
{
    match ctx.validate_with(
        name.as_str(),
        symbol.as_str(),
        target_currency.as_str(),
        bond_account,
        record_decodes,
    ) {
        Ok(_) => {},
        Err(e) => { return Err(e); },
    }
    let stablecoin_count: u32 = match ctx.factory_state.stablecoin_count.checked_add(1) {
        Some(count) => count,
        None => { return Err(InstructionError::Rule(StablecoinError::MathOverflow)); },
    };
    let bond_mint = ctx.bond_mint;
    match ctx.factory_state.count_stablecoin(&bond_mint) {
        Ok(_) => {},
        Err(e) => { return Err(InstructionError::Rule(e)); },
    }
    let now = ctx.unix_timestamp;
    ctx.stablecoin_state.name = name.clone();
    ctx.stablecoin_state.symbol = symbol.clone();
    ctx.stablecoin_state.original_symbol = symbol.clone();
    ctx.stablecoin_state.target_currency = target_currency.clone();
    ctx.stablecoin_state.creator = ctx.creator;
    ctx.stablecoin_state.mint = ctx.mint;
    ctx.stablecoin_state.yield_mint = ctx.yield_mint;
    ctx.stablecoin_state.total_yield_collected = 0;
    ctx.stablecoin_state.collateral_vault = ctx.collateral_vault;
    ctx.stablecoin_state.bond_mint = ctx.bond_mint;
    ctx.stablecoin_state.last_updated = now;
    ctx.stablecoin_state.last_rebase = now;
    ctx.stablecoin_state.total_rebase_amount = 0;
    ctx.stablecoin_state.user_shares = Vec::new();
    ctx.stablecoin_state.total_supply = 0;
    ctx.stablecoin_state.total_collateral = 0;
    ctx.stablecoin_state.collateral_ratio = clamp_ratio(ctx.factory_state.min_collateral_ratio);
    ctx.stablecoin_state.bump = ctx.stablecoin_state_bump;
    ctx.factory_state.stablecoin_count = stablecoin_count;
    ctx.creator_state.bump = ctx.creator_state_bump;
    ctx.creator_state.user = ctx.creator;
    ctx.creator_state.stablecoin = ctx.mint;
    ctx.creator_state.total_yield_collected = 0;
    ctx.creator_state.last_yield_collection = now;
    ctx.creator_state.bond_amount = 0;
    ctx.creator_state.stablecoin_amount = 0;
    Ok(
        StablecoinCreated {
            creator: ctx.creator,
            mint: ctx.mint,
            bond_mint: ctx.bond_mint,
            name,
            symbol,
            target_currency,
            timestamp: now,
        },
    )
}

/// Creates a stablecoin of the given name, symbol and target currency
/// against the bond of the context.
pub fn create_stablecoin(
    ctx: &mut CreateStablecoin,
    name: String,
    symbol: String,
    target_currency: String,
) -> (r: Result<StablecoinCreated, InstructionError>)
    ensures
        match old(ctx).creation_check(
            name@,
            symbol@,
            bond_pda(old(ctx).bond_mint@),
            decoded_bond(old(ctx).bond_info.data@).is_some(),
        ) {
            Err(e) => r == Err::<StablecoinCreated, InstructionError>(e)
                && *final(ctx) == *old(ctx),
            Ok(_) => r == Ok::<StablecoinCreated, InstructionError>(
                StablecoinCreated {
                    creator: old(ctx).creator,
                    mint: old(ctx).mint,
                    bond_mint: old(ctx).bond_mint,
                    name: name,
                    symbol: symbol,
                    target_currency: target_currency,
                    timestamp: old(ctx).unix_timestamp,
                },
            ) && final(ctx).is_creation_of(*old(ctx), name, symbol, target_currency),
        },
        r.is_ok() ==> final(ctx).stablecoin_state.is_balanced()
            && final(ctx).stablecoin_state.ledger_is_sound()
            && MIN_ALLOWED_COLLATERAL_RATIO <= final(ctx).stablecoin_state.collateral_ratio
            && final(ctx).stablecoin_state.collateral_ratio <= MAX_ALLOWED_COLLATERAL_RATIO,
        old(ctx).factory_state.tracker_follows_registry() ==>
            final(ctx).factory_state.tracker_follows_registry(),
        final(ctx).factory_state.collateral_in_use(old(ctx).bond_mint)
            == old(ctx).factory_state.collateral_in_use(old(ctx).bond_mint),
        old(ctx).factory_state.registry_is_sound() ==> final(ctx).factory_state.registry_is_sound(),
{
    let expected = bond_address(&ctx.bond_mint);
    let record = decode_bond(&ctx.bond_info.data);
    create_stablecoin_with(ctx, name, symbol, target_currency, &expected, record.is_some())
}

} // verus!
