//! Minting: a depositor hands in bonds and is issued supply against them, at
//! the price of an oracle round that is at most five minutes old. The deposit
//! is counted in the ledger, in the aggregates of the stablecoin and in the
//! collateral tracked for the bond.

use vstd::prelude::*;
use crate::accounts::AccountSnapshot;
use crate::accounts::OracleRound;
use crate::accounts::TokenAccount;
use crate::address::Address;
use crate::constants::ORACLE_STALENESS_THRESHOLD;
use crate::conversion::calculate_fee;
use crate::conversion::fee_result;
use crate::conversion::mint_amount_result;
use crate::conversion::oracle_price;
use crate::conversion::oracle_price_result;
use crate::errors::StablecoinError;
use crate::events::StablecoinMinted;
use crate::stablebond::kyc_address;
use crate::stablebond::kyc_pda;
use crate::stablebond::stablebond_program;
use crate::stablebond::STABLEBOND_PROGRAM_ID;
use crate::states::sol_fee_vault::SolFeeVault;
use crate::states::stablecoin::credited;
use crate::states::stablecoin::StablecoinState;
use crate::states::factory_state::FactoryState;
use crate::states::user::UserState;
use crate::timing::is_within_window;
use crate::timing::within_window;

verus! {

/// What a mint works on.
#[derive(Clone, Debug, PartialEq, Eq)]
pub struct MintStablecoin {
    /// The depositor, who signs.
    pub user: Address,
    pub stablecoin_state: StablecoinState,
    pub factory_state: FactoryState,
    pub user_state: UserState,
    /// The depositor's account of bonds.
    pub user_bond_account: TokenAccount,
    /// The depositor's account of the stablecoin.
    pub user_stablecoin_account: TokenAccount,
    /// The mint of the stablecoin.
    pub stablecoin_mint: Address,
    pub collateral_vault: TokenAccount,
    pub sol_fee_vault: SolFeeVault,
    /// The account said to hold the depositor's identity check.
    pub kyc_info: AccountSnapshot,
    /// The latest round of the oracle that quotes the bond.
    pub oracle: OracleRound,
    /// The current time.
    pub unix_timestamp: i64,
}

/// What an accepted mint asks to be settled: the fee to pay into the fee
/// vault, and in the event the bonds to move into the collateral vault and
/// the supply to mint to the depositor.
#[derive(Clone, Copy, Debug, PartialEq, Eq)]
pub struct MintReceipt {
    /// The fee, charged on top of the deposit.
    pub fee_amount: u64,
    pub event: StablecoinMinted,
}

impl MintStablecoin {
    /// Whether the accounts fit together: the stablecoin is not paused, and
    /// the bond account is the depositor's and holds the stablecoin's bond.
    pub open spec fn account_check(&self) -> Result<(), StablecoinError> {
        if self.stablecoin_state.is_paused {
            Err(StablecoinError::StablecoinPaused)
        } else if self.user_bond_account.owner != self.user {
            Err(StablecoinError::InvalidTokenAccountOwner)
        } else if self.user_bond_account.mint != self.stablecoin_state.bond_mint {
            Err(StablecoinError::InvalidBondMint)
        } else {
            Ok(())
        }
    }

    /// Whether a deposit of `amount` is admitted, `kyc` being the address at
    /// which the bond program keeps the depositor's identity check. The
    /// oracle round that sets the price must be at most five minutes old.
    pub open spec fn validation(&self, amount: u64, kyc: Seq<u8>) -> Result<(), StablecoinError> {
        if self.kyc_info.key@ != kyc {
            Err(StablecoinError::InvalidKycAccount)
        } else if self.kyc_info.owner.bytes != STABLEBOND_PROGRAM_ID {
            Err(StablecoinError::InvalidKycAccount)
        } else {
            match self.factory_state.bond_config(self.stablecoin_state.bond_mint) {
                None => Err(StablecoinError::BondNotFound),
                Some(config) => if amount < config.min_creation_amount {
                    Err(StablecoinError::DepositTooSmall)
                } else if !within_window(
                    self.unix_timestamp,
                    self.oracle.round_open_timestamp,
                    ORACLE_STALENESS_THRESHOLD,
                ) {
                    Err(StablecoinError::StaleOraclePrice)
                } else {
                    Ok(())
                },
            }
        }
    }

    /// The fee on `amount` at the rate of the stablecoin's bond.
    pub open spec fn fee_amount_of(&self, amount: u64) -> Result<u64, StablecoinError> {
        match self.factory_state.fee_rate_of(self.stablecoin_state.bond_mint) {
            Err(e) => Err(e),
            Ok(rate) => fee_result(amount, rate),
        }
    }

    /// What a deposit of `bond_amount` comes to: the receipt of the mint, or
    /// the first reason to refuse it. The deposit must be admitted, the
    /// amounts must be computable, the fee count, the ledger with its
    /// aggregates and the collateral tracked for the bond must take them.
    pub open spec fn mint_outcome(&self, bond_amount: u64, kyc: Seq<u8>) -> Result<
        MintReceipt,
        StablecoinError,
    > {
        match self.validation(bond_amount, kyc) {
            Err(e) => Err(e),
            Ok(_) => match oracle_price_result(self.oracle.mantissa) {
                Err(e) => Err(e),
                Ok(bond_price) => match mint_amount_result(
                    bond_amount,
                    bond_price,
                    self.stablecoin_state.collateral_ratio,
                ) {
                    Err(e) => Err(e),
                    Ok(mint_amount) => match self.fee_amount_of(mint_amount) {
                        Err(e) => Err(e),
                        Ok(fee_amount) => if self.sol_fee_vault.total_fees_collected + fee_amount
                            > u64::MAX {
                            Err(StablecoinError::MathOverflow)
                        } else {
                            match self.stablecoin_state.credit_outcome(
                                self.user,
                                bond_amount,
                                mint_amount,
                                self.unix_timestamp,
                            ) {
                                Err(e) => Err(e),
                                Ok(_) => match self.factory_state.collateral_updated(
                                    self.stablecoin_state.bond_mint,
                                    bond_amount,
                                    true,
                                ) {
                                    Err(e) => Err(e),
                                    Ok(_) => Ok(
                                        MintReceipt {
                                            fee_amount,
                                            event: StablecoinMinted {
                                                user: self.user,
                                                mint: self.stablecoin_mint,
                                                bond_amount,
                                                mint_amount,
                                                bond_price,
                                                timestamp: self.unix_timestamp,
                                            },
                                        },
                                    ),
                                },
                            }
                        },
                    },
                },
            },
        }
    }

    /// These records are `before` after the mint that `receipt` reports: the
    /// depositor is credited, the aggregates have grown by the same amounts,
    /// the time of the oracle round is kept as the time the price was
    /// observed, the collateral tracked for the bond has grown by the deposit,
    /// the fee is counted, and nothing else changed.
    pub open spec fn is_mint_of(&self, before: MintStablecoin, receipt: MintReceipt) -> bool {
        &&& credited(
            before.stablecoin_state.user_shares@,
            before.user,
            receipt.event.bond_amount,
            receipt.event.mint_amount,
            before.unix_timestamp,
        ) matches Ok(shares) && self.stablecoin_state.is_ledger_change_of(
            StablecoinState {
                last_price_update: before.oracle.round_open_timestamp,
                ..before.stablecoin_state
            },
            shares,
            before.stablecoin_state.total_supply + receipt.event.mint_amount,
            before.stablecoin_state.total_collateral + receipt.event.bond_amount,
            before.unix_timestamp,
        )
        &&& before.factory_state.collateral_updated(
            before.stablecoin_state.bond_mint,
            receipt.event.bond_amount,
            true,
        ) matches Ok(tracking) && self.factory_state.is_tracking_change_of(
            before.factory_state,
            tracking,
        )
        &&& self.sol_fee_vault == (SolFeeVault {
            total_fees_collected: (before.sol_fee_vault.total_fees_collected
                + receipt.fee_amount) as u64,
            last_collection: before.unix_timestamp,
            ..before.sol_fee_vault
        })
        &&& *self == (MintStablecoin {
            stablecoin_state: self.stablecoin_state,
            factory_state: self.factory_state,
            sol_fee_vault: self.sol_fee_vault,
            ..before
        })
    }

    /// Checks that the accounts fit together.
    pub fn check_accounts(&self) -> (r: Result<(), StablecoinError>)
        ensures
            r == self.account_check(),
    {
        if self.stablecoin_state.is_paused {
            return Err(StablecoinError::StablecoinPaused);
        }
        if self.user_bond_account.owner != self.user {
            return Err(StablecoinError::InvalidTokenAccountOwner);
        }
        if self.user_bond_account.mint != self.stablecoin_state.bond_mint {
            return Err(StablecoinError::InvalidBondMint);
        }
        Ok(())
    }

    /// Admits a deposit of `amount`, given the address at which the bond
    /// program keeps the depositor's identity check.
    pub fn validate_with(&self, amount: u64, kyc_address: &Address) -> (r: Result<
        (),
        StablecoinError,
    >)
        ensures
            r == self.validation(amount, kyc_address@),
    {
        proof {
            Address::lemma_view_injective(self.kyc_info.key, *kyc_address);
        }
        if self.kyc_info.key != *kyc_address {
            return Err(StablecoinError::InvalidKycAccount);
        }
        if self.kyc_info.owner != stablebond_program() {
            return Err(StablecoinError::InvalidKycAccount);
        }
        let bond_config = match self.factory_state.get_bond_config(
            &self.stablecoin_state.bond_mint,
        ) {
            Some(config) => config,
            None => { return Err(StablecoinError::BondNotFound); },
        };
        if amount < bond_config.min_creation_amount {
            return Err(StablecoinError::DepositTooSmall);
        }
        if !is_within_window(
            self.unix_timestamp,
            self.oracle.round_open_timestamp,
            ORACLE_STALENESS_THRESHOLD,
        ) {
            return Err(StablecoinError::StaleOraclePrice);
        }
        Ok(())
    }

    /// Admits a deposit of `amount`: the depositor has passed the identity
    /// check of the bond program, the amount reaches the bond's minimum, and
    /// the price is fresh.
    pub fn validate(&self, amount: u64) -> (r: Result<(), StablecoinError>)
        ensures
            r == self.validation(amount, kyc_pda(self.user@)),
    {
        let expected = kyc_address(&self.user);
        self.validate_with(amount, &expected)
    }

    /// The price of the bond, scaled by the price scale.
    pub fn get_oracle_price(&self) -> (r: Result<u64, StablecoinError>)
        ensures
            r == oracle_price_result(self.oracle.mantissa),
    {
        oracle_price(self.oracle.mantissa)
    }

    /// The supply to mint for `bond_amount` of bonds at `bond_price` under
    /// `collateral_ratio`.
    pub fn calculate_mint_amount(&self, bond_amount: u64, bond_price: u64, collateral_ratio: u16) -> (r:
        Result<u64, StablecoinError>)
        ensures
            r == mint_amount_result(bond_amount, bond_price, collateral_ratio),
    {
        crate::conversion::calculate_mint_amount(bond_amount, bond_price, collateral_ratio)
    }

    /// The fee on `amount` at the rate of the stablecoin's bond.
    pub fn calculate_fee_amount(&self, amount: u64) -> (r: Result<u64, StablecoinError>)
        ensures
            r == self.fee_amount_of(amount),
    {
        let fee_rate = match self.factory_state.get_fee_rate(&self.stablecoin_state.bond_mint) {
            Ok(rate) => rate,
            Err(e) => { return Err(e); },
        };
        calculate_fee(amount, fee_rate)
    }

    /// Credits `user` with `bond_amount` of collateral and `mint_amount` of
    /// supply at the current time, in the ledger and in the aggregates of the
    /// stablecoin, or in neither.
    pub fn update_user_share(&mut self, user: Address, bond_amount: u64, mint_amount: u64) -> (r:
        Result<(), StablecoinError>)
        ensures
            match old(self).stablecoin_state.credit_outcome(
                user,
                bond_amount,
                mint_amount,
                old(self).unix_timestamp,
            ) {
                Err(e) => r == Err::<(), StablecoinError>(e) && *final(self) == *old(self),
                Ok(shares) => {
                    &&& r.is_ok()
                    &&& final(self).stablecoin_state.is_ledger_change_of(
                        old(self).stablecoin_state,
                        shares,
                        old(self).stablecoin_state.total_supply + mint_amount,
                        old(self).stablecoin_state.total_collateral + bond_amount,
                        old(self).unix_timestamp,
                    )
                    &&& *final(self) == (MintStablecoin {
                        stablecoin_state: final(self).stablecoin_state,
                        ..*old(self)
                    })
                },
            },
            old(self).stablecoin_state.is_balanced() ==> final(self).stablecoin_state.is_balanced(),
            old(self).stablecoin_state.ledger_is_sound() ==>
                final(self).stablecoin_state.ledger_is_sound(),
    {
        let now = self.unix_timestamp;
        self.stablecoin_state.credit(user, bond_amount, mint_amount, now)
    }
}

/// Mints against a deposit of `bond_amount`, given the address at which the
/// bond program keeps the depositor's identity check.
///
/// Either the deposit is refused and nothing changes, or the depositor is
/// credited, the aggregates grow with the ledger, the collateral tracked for
/// the bond grows by the deposit, the fee is counted and the receipt says
/// what to settle.
pub fn mint_stablecoin_with(
    ctx: &mut MintStablecoin,
    bond_amount: u64,
    kyc_address: &Address,
) -> (r:
    Result<MintReceipt, StablecoinError>)
    ensures
        match old(ctx).mint_outcome(bond_amount, kyc_address@) {
            Err(e) => r == Err::<MintReceipt, StablecoinError>(e) && *final(ctx) == *old(ctx),
            Ok(receipt) => r == Ok::<MintReceipt, StablecoinError>(receipt)
                && final(ctx).is_mint_of(*old(ctx), receipt),
        },
        old(ctx).stablecoin_state.is_balanced() ==> final(ctx).stablecoin_state.is_balanced(),
        old(ctx).stablecoin_state.ledger_is_sound() ==>
            final(ctx).stablecoin_state.ledger_is_sound(),
        old(ctx).factory_state.tracker_follows_registry() ==>
            final(ctx).factory_state.tracker_follows_registry(),
        old(ctx).factory_state.registry_is_sound() ==> final(ctx).factory_state.registry_is_sound(),
        r.is_ok() ==>
            final(ctx).factory_state.collateral_in_use(old(ctx).stablecoin_state.bond_mint)
            == old(ctx).factory_state.collateral_in_use(old(ctx).stablecoin_state.bond_mint)
            + bond_amount,
        r.is_ok() ==> final(ctx).stablecoin_state.last_price_update
            == old(ctx).oracle.round_open_timestamp,
{
    match ctx.validate_with(bond_amount, kyc_address) {
        Ok(_) => {},
        Err(e) => { return Err(e); },
    }
    let bond_price = match ctx.get_oracle_price() {
        Ok(price) => price,
        Err(e) => { return Err(e); },
    };
    let collateral_ratio = ctx.stablecoin_state.collateral_ratio;
    let mint_amount = match ctx.calculate_mint_amount(bond_amount, bond_price, collateral_ratio) {
        Ok(amount) => amount,
        Err(e) => { return Err(e); },
    };
    let fee_amount = match ctx.calculate_fee_amount(mint_amount) {
        Ok(amount) => amount,
        Err(e) => { return Err(e); },
    };
    let fees_total = match ctx.sol_fee_vault.total_fees_collected.checked_add(fee_amount) {
        Some(total) => total,
        None => { return Err(StablecoinError::MathOverflow); },
    };
    let user = ctx.user;
    let now = ctx.unix_timestamp;
    match ctx.stablecoin_state.check_credit(&user, bond_amount, mint_amount, now) {
        Ok(_) => {},
        Err(e) => { return Err(e); },
    }
    let bond_mint = ctx.stablecoin_state.bond_mint;
    match ctx.factory_state.update_bond_collateral(&bond_mint, bond_amount, true) {
        Ok(_) => {},
        Err(e) => { return Err(e); },
    }
    ctx.stablecoin_state.last_price_update = ctx.oracle.round_open_timestamp;
    match ctx.update_user_share(user, bond_amount, mint_amount) {
        Ok(_) => {},
        Err(e) => { return Err(e); },
    }
    ctx.sol_fee_vault.total_fees_collected = fees_total;
    ctx.sol_fee_vault.last_collection = ctx.unix_timestamp;
    Ok(
        MintReceipt {
            fee_amount,
            event: StablecoinMinted {
                user,
                mint: ctx.stablecoin_mint,
                bond_amount,
                mint_amount,
                bond_price,
                timestamp: ctx.unix_timestamp,
            },
        },
    )
}

/// Mints against a deposit of `bond_amount` by the signer.
pub fn mint_stablecoin(ctx: &mut MintStablecoin, bond_amount: u64) -> (r: Result<
    MintReceipt,
    StablecoinError,
>)
    ensures
        match old(ctx).mint_outcome(bond_amount, kyc_pda(old(ctx).user@)) {
            Err(e) => r == Err::<MintReceipt, StablecoinError>(e) && *final(ctx) == *old(ctx),
            Ok(receipt) => r == Ok::<MintReceipt, StablecoinError>(receipt)
                && final(ctx).is_mint_of(*old(ctx), receipt),
        },
        old(ctx).stablecoin_state.is_balanced() ==> final(ctx).stablecoin_state.is_balanced(),
        old(ctx).stablecoin_state.ledger_is_sound() ==>
            final(ctx).stablecoin_state.ledger_is_sound(),
        old(ctx).factory_state.tracker_follows_registry() ==>
            final(ctx).factory_state.tracker_follows_registry(),
        old(ctx).factory_state.registry_is_sound() ==> final(ctx).factory_state.registry_is_sound(),
        r.is_ok() ==>
            final(ctx).factory_state.collateral_in_use(old(ctx).stablecoin_state.bond_mint)
            == old(ctx).factory_state.collateral_in_use(old(ctx).stablecoin_state.bond_mint)
            + bond_amount,
        r.is_ok() ==> final(ctx).stablecoin_state.last_price_update
            == old(ctx).oracle.round_open_timestamp,
{
    let expected = kyc_address(&ctx.user);
    mint_stablecoin_with(ctx, bond_amount, &expected)
}

} // verus!
