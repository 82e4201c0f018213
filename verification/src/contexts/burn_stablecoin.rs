//! Burning: a depositor hands in supply and is returned bonds for it, at the
//! price of an oracle round that is at most five minutes old. What is returned
//! is taken from the ledger, from the aggregates of the stablecoin and from
//! the collateral tracked for the bond.

use vstd::prelude::*;
use crate::accounts::AccountSnapshot;
use crate::accounts::OracleRound;
use crate::accounts::TokenAccount;
use crate::address::Address;
use crate::constants::ORACLE_STALENESS_THRESHOLD;
use crate::conversion::bond_return_result;
use crate::conversion::calculate_fee;
use crate::conversion::fee_result;
use crate::conversion::oracle_price;
use crate::conversion::oracle_price_result;
use crate::errors::StablecoinError;
use crate::events::StablecoinBurned;
use crate::stablebond::kyc_address;
use crate::stablebond::kyc_pda;
use crate::stablebond::stablebond_program;
use crate::stablebond::STABLEBOND_PROGRAM_ID;
use crate::states::factory_state::FactoryState;
use crate::states::sol_fee_vault::SolFeeVault;
use crate::states::stablecoin::debited;
use crate::states::stablecoin::StablecoinState;
use crate::states::user::UserState;
use crate::timing::is_within_window;
use crate::timing::within_window;

verus! {

/// What a burn works on.
#[derive(Clone, Debug, PartialEq, Eq)]
pub struct BurnStablecoin {
    /// The depositor, who signs.
    pub user: Address,
    pub stablecoin_state: StablecoinState,
    pub factory_state: FactoryState,
    pub user_state: UserState,
    /// The depositor's account of bonds, which receives the collateral.
    pub user_bond_account: TokenAccount,
    /// The depositor's account of the stablecoin, which is burned from.
    pub user_stablecoin_account: TokenAccount,
    /// The mint of the stablecoin.
    pub stablecoin_mint: Address,
    pub collateral_vault: TokenAccount,
    pub sol_fee_vault: SolFeeVault,
    /// The account said to hold the depositor's identity check.
    pub kyc_info: AccountSnapshot,
    /// The latest round of the oracle that quotes the bond.
    pub oracle: OracleRound,
    /// The current time.
    pub unix_timestamp: i64,
}

/// What an accepted burn asks to be settled: the fee to pay into the fee
/// vault, and in the event the supply to burn from the depositor and the
/// bonds to move out of the collateral vault.
#[derive(Clone, Copy, Debug, PartialEq, Eq)]
pub struct BurnReceipt {
    /// The fee, charged on top of what is burned.
    pub fee_amount: u64,
    pub event: StablecoinBurned,
}

impl BurnStablecoin {
    /// Whether the accounts fit together: the stablecoin is not paused, and
    /// the bond account is the depositor's and holds the stablecoin's bond.
    pub open spec fn account_check(&self) -> Result<(), StablecoinError> {
        if self.stablecoin_state.is_paused {
            Err(StablecoinError::StablecoinPaused)
        } else if self.user_bond_account.owner != self.user {
            Err(StablecoinError::InvalidTokenAccountOwner)
        } else if self.user_bond_account.mint != self.stablecoin_state.bond_mint {
            Err(StablecoinError::InvalidBondMint)
        } else {
            Ok(())
        }
    }

    /// Whether a redemption of `amount` is admitted, `kyc` being the address
    /// at which the bond program keeps the depositor's identity check. The
    /// oracle round that sets the price must be at most five minutes old.
    pub open spec fn validation(&self, amount: u64, kyc: Seq<u8>) -> Result<(), StablecoinError> {
        if self.kyc_info.key@ != kyc {
            Err(StablecoinError::InvalidKycAccount)
        } else if self.kyc_info.owner.bytes != STABLEBOND_PROGRAM_ID {
            Err(StablecoinError::InvalidKycAccount)
        } else {
            match self.factory_state.bond_config(self.stablecoin_state.bond_mint) {
                None => Err(StablecoinError::BondNotFound),
                Some(config) => if amount < config.min_redemption_amount {
                    Err(StablecoinError::RedeemAmountTooSmall)
                } else if !within_window(
                    self.unix_timestamp,
                    self.oracle.round_open_timestamp,
                    ORACLE_STALENESS_THRESHOLD,
                ) {
                    Err(StablecoinError::StaleOraclePrice)
                } else if self.user_stablecoin_account.amount < amount {
                    Err(StablecoinError::InsufficientStablecoinBalance)
                } else {
                    match self.bond_return_at_oracle_price(amount) {
                        Err(e) => Err(e),
                        Ok((_, bond_amount)) => if self.collateral_vault.amount < bond_amount {
                            Err(StablecoinError::InsufficientCollateral)
                        } else {
                            Ok(())
                        },
                    }
                },
            }
        }
    }

    /// The price of the bond and the bonds to return for `amount` of supply at
    /// that price, under the ratio of the stablecoin.
    pub open spec fn bond_return_at_oracle_price(&self, amount: u64) -> Result<
        (u64, u64),
        StablecoinError,
    > {
        match oracle_price_result(self.oracle.mantissa) {
            Err(e) => Err(e),
            Ok(bond_price) => match bond_return_result(
                amount,
                bond_price,
                self.stablecoin_state.collateral_ratio,
            ) {
                Err(e) => Err(e),
                Ok(bond_amount) => Ok((bond_price, bond_amount)),
            },
        }
    }

    /// The fee on `amount` at the rate of the stablecoin's bond.
    pub open spec fn fee_amount_of(&self, amount: u64) -> Result<u64, StablecoinError> {
        match self.factory_state.fee_rate_of(self.stablecoin_state.bond_mint) {
            Err(e) => Err(e),
            Ok(rate) => fee_result(amount, rate),
        }
    }

    /// What a redemption of `stablecoin_amount` comes to: the receipt of the
    /// burn, or the first reason to refuse it. The redemption must be
    /// admitted, the amounts must be computable, and the ledger with its
    /// aggregates and the collateral tracked for the bond must give them.
    pub open spec fn burn_outcome(&self, stablecoin_amount: u64, kyc: Seq<u8>) -> Result<
        BurnReceipt,
        StablecoinError,
    > {
        match self.validation(stablecoin_amount, kyc) {
            Err(e) => Err(e),
            Ok(_) => match self.bond_return_at_oracle_price(stablecoin_amount) {
                Err(e) => Err(e),
                Ok((bond_price, bond_amount)) => match self.fee_amount_of(stablecoin_amount) {
                    Err(e) => Err(e),
                    Ok(fee_amount) => match self.stablecoin_state.debit_outcome(
                        self.user,
                        bond_amount,
                        stablecoin_amount,
                        self.unix_timestamp,
                    ) {
                        Err(e) => Err(e),
                        Ok(_) => match self.factory_state.collateral_updated(
                            self.stablecoin_state.bond_mint,
                            bond_amount,
                            false,
                        ) {
                            Err(e) => Err(e),
                            Ok(_) => Ok(
                                BurnReceipt {
                                    fee_amount,
                                    event: StablecoinBurned {
                                        user: self.user,
                                        mint: self.stablecoin_mint,
                                        bond_amount,
                                        stablecoin_amount,
                                        bond_price,
                                        timestamp: self.unix_timestamp,
                                    },
                                },
                            ),
                        },
                    },
                },
            },
        }
    }

    /// These records are `before` after the burn that `receipt` reports: the
    /// depositor is debited, the aggregates have shrunk by the same amounts,
    /// the time of the oracle round is kept as the time the price was
    /// observed, the collateral tracked for the bond has shrunk by what is
    /// returned, and nothing else changed.
    pub open spec fn is_burn_of(&self, before: BurnStablecoin, receipt: BurnReceipt) -> bool {
        &&& debited(
            before.stablecoin_state.user_shares@,
            before.user,
            receipt.event.bond_amount,
            receipt.event.stablecoin_amount,
            before.unix_timestamp,
        ) matches Ok(shares) && self.stablecoin_state.is_ledger_change_of(
            StablecoinState {
                last_price_update: before.oracle.round_open_timestamp,
                ..before.stablecoin_state
            },
            shares,
            before.stablecoin_state.total_supply - receipt.event.stablecoin_amount,
            before.stablecoin_state.total_collateral - receipt.event.bond_amount,
            before.unix_timestamp,
        )
        &&& before.factory_state.collateral_updated(
            before.stablecoin_state.bond_mint,
            receipt.event.bond_amount,
            false,
        ) matches Ok(tracking) && self.factory_state.is_tracking_change_of(
            before.factory_state,
            tracking,
        )
        &&& *self == (BurnStablecoin {
            stablecoin_state: self.stablecoin_state,
            factory_state: self.factory_state,
            ..before
        })
    }

    /// Checks that the accounts fit together.
    pub fn check_accounts(&self) -> (r: Result<(), StablecoinError>)
        ensures
            r == self.account_check(),
    {
        if self.stablecoin_state.is_paused {
            return Err(StablecoinError::StablecoinPaused);
        }
        if self.user_bond_account.owner != self.user {
            return Err(StablecoinError::InvalidTokenAccountOwner);
        }
        if self.user_bond_account.mint != self.stablecoin_state.bond_mint {
            return Err(StablecoinError::InvalidBondMint);
        }
        Ok(())
    }

    /// Admits a redemption of `amount`, given the address at which the bond
    /// program keeps the depositor's identity check.
    pub fn validate_with(&self, amount: u64, kyc_address: &Address) -> (r: Result<
        (),
        StablecoinError,
    >)
        ensures
            r == self.validation(amount, kyc_address@),
    {
        proof {
            Address::lemma_view_injective(self.kyc_info.key, *kyc_address);
        }
        if self.kyc_info.key != *kyc_address {
            return Err(StablecoinError::InvalidKycAccount);
        }
        if self.kyc_info.owner != stablebond_program() {
            return Err(StablecoinError::InvalidKycAccount);
        }
        let bond_config = match self.factory_state.get_bond_config(
            &self.stablecoin_state.bond_mint,
        ) {
            Some(config) => config,
            None => { return Err(StablecoinError::BondNotFound); },
        };
        if amount < bond_config.min_redemption_amount {
            return Err(StablecoinError::RedeemAmountTooSmall);
        }
        if !is_within_window(
            self.unix_timestamp,
            self.oracle.round_open_timestamp,
            ORACLE_STALENESS_THRESHOLD,
        ) {
            return Err(StablecoinError::StaleOraclePrice);
        }
        if self.user_stablecoin_account.amount < amount {
            return Err(StablecoinError::InsufficientStablecoinBalance);
        }
        let bond_price = match self.get_oracle_price() {
            Ok(price) => price,
            Err(e) => { return Err(e); },
        };
        let bond_amount = match self.calculate_bond_return(
            amount,
            bond_price,
            self.stablecoin_state.collateral_ratio,
        ) {
            Ok(bonds) => bonds,
            Err(e) => { return Err(e); },
        };
        if self.collateral_vault.amount < bond_amount {
            return Err(StablecoinError::InsufficientCollateral);
        }
        Ok(())
    }

    /// Admits a redemption of `amount`: the depositor has passed the identity
    /// check of the bond program, the amount reaches the bond's minimum, the
    /// price is fresh, the depositor holds the supply and the vault holds the
    /// bonds to return.
    pub fn validate(&self, amount: u64) -> (r: Result<(), StablecoinError>)
        ensures
            r == self.validation(amount, kyc_pda(self.user@)),
    {
        let expected = kyc_address(&self.user);
        self.validate_with(amount, &expected)
    }

    /// The price of the bond, scaled by the price scale.
    pub fn get_oracle_price(&self) -> (r: Result<u64, StablecoinError>)
        ensures
            r == oracle_price_result(self.oracle.mantissa),
    {
        oracle_price(self.oracle.mantissa)
    }

    /// The bonds to return for `stablecoin_amount` of supply at `bond_price`
    /// under `collateral_ratio`.
    pub fn calculate_bond_return(
        &self,
        stablecoin_amount: u64,
        bond_price: u64,
        collateral_ratio: u16,
    ) -> (r: Result<u64, StablecoinError>)
        ensures
            r == bond_return_result(stablecoin_amount, bond_price, collateral_ratio),
    {
        crate::conversion::calculate_bond_return(stablecoin_amount, bond_price, collateral_ratio)
    }

    /// The fee on `amount` at the rate of the stablecoin's bond.
    pub fn calculate_fee_amount(&self, amount: u64) -> (r: Result<u64, StablecoinError>)
        ensures
            r == self.fee_amount_of(amount),
    {
        let fee_rate = match self.factory_state.get_fee_rate(&self.stablecoin_state.bond_mint) {
            Ok(rate) => rate,
            Err(e) => { return Err(e); },
        };
        calculate_fee(amount, fee_rate)
    }

    /// Debits `user` by `bond_amount` of collateral and `mint_amount` of supply
    /// at the current time, in the ledger and in the aggregates of the
    /// stablecoin, or in neither. An entry with nothing left is removed.
    pub fn update_user_share(&mut self, user: Address, bond_amount: u64, mint_amount: u64) -> (r:
        Result<(), StablecoinError>)
        ensures
            match old(self).stablecoin_state.debit_outcome(
                user,
                bond_amount,
                mint_amount,
                old(self).unix_timestamp,
            ) {
                Err(e) => r == Err::<(), StablecoinError>(e) && *final(self) == *old(self),
                Ok(shares) => {
                    &&& r.is_ok()
                    &&& final(self).stablecoin_state.is_ledger_change_of(
                        old(self).stablecoin_state,
                        shares,
                        old(self).stablecoin_state.total_supply - mint_amount,
                        old(self).stablecoin_state.total_collateral - bond_amount,
                        old(self).unix_timestamp,
                    )
                    &&& *final(self) == (BurnStablecoin {
                        stablecoin_state: final(self).stablecoin_state,
                        ..*old(self)
                    })
                },
            },
            old(self).stablecoin_state.is_balanced() ==> final(self).stablecoin_state.is_balanced(),
            old(self).stablecoin_state.ledger_is_sound() ==>
                final(self).stablecoin_state.ledger_is_sound(),
            r.is_ok()
                && old(self).stablecoin_state.ledger_is_sound()
                && old(self).stablecoin_state.position_of(user).bond_amount == bond_amount
                && old(self).stablecoin_state.position_of(user).mint_amount == mint_amount ==>
                    !final(self).stablecoin_state.holds_position(user),
    {
        let now = self.unix_timestamp;
        self.stablecoin_state.debit(user, bond_amount, mint_amount, now)
    }
}

/// Burns `stablecoin_amount` of supply, given the address at which the bond
/// program keeps the depositor's identity check.
///
/// Either the redemption is refused and nothing changes, or the depositor is
/// debited, the aggregates shrink with the ledger, the collateral tracked for
/// the bond shrinks by what is returned and the receipt says what to settle.
pub fn burn_stablecoin_with(
    ctx: &mut BurnStablecoin,
    stablecoin_amount: u64,
    kyc_address: &Address,
) -> (r:
    Result<BurnReceipt, StablecoinError>)
    ensures
        match old(ctx).burn_outcome(stablecoin_amount, kyc_address@) {
            Err(e) => r == Err::<BurnReceipt, StablecoinError>(e) && *final(ctx) == *old(ctx),
            Ok(receipt) => r == Ok::<BurnReceipt, StablecoinError>(receipt)
                && final(ctx).is_burn_of(
                *old(ctx),
                receipt,
            ),
        },
        old(ctx).stablecoin_state.is_balanced() ==> final(ctx).stablecoin_state.is_balanced(),
        old(ctx).stablecoin_state.ledger_is_sound() ==>
            final(ctx).stablecoin_state.ledger_is_sound(),
        r matches Ok(receipt)
            && old(ctx).stablecoin_state.ledger_is_sound()
            && old(ctx).stablecoin_state.position_of(old(ctx).user).bond_amount == receipt.event.bond_amount
            && old(ctx).stablecoin_state.position_of(old(ctx).user).mint_amount
            == stablecoin_amount ==> !final(ctx).stablecoin_state.holds_position(old(ctx).user),
        old(ctx).factory_state.tracker_follows_registry() ==>
            final(ctx).factory_state.tracker_follows_registry(),
        old(ctx).factory_state.registry_is_sound() ==> final(ctx).factory_state.registry_is_sound(),
        r matches Ok(receipt) ==> final(ctx).factory_state.collateral_in_use(
            old(ctx).stablecoin_state.bond_mint,
        ) == old(ctx).factory_state.collateral_in_use(old(ctx).stablecoin_state.bond_mint)
            - receipt.event.bond_amount,
        r.is_ok() ==> final(ctx).stablecoin_state.last_price_update
            == old(ctx).oracle.round_open_timestamp,
{
    match ctx.validate_with(stablecoin_amount, kyc_address) {
        Ok(_) => {},
        Err(e) => { return Err(e); },
    }
    let bond_price = match ctx.get_oracle_price() {
        Ok(price) => price,
        Err(e) => { return Err(e); },
    };
    let collateral_ratio = ctx.stablecoin_state.collateral_ratio;
    let bond_amount = match ctx.calculate_bond_return(
        stablecoin_amount,
        bond_price,
        collateral_ratio,
    ) {
        Ok(amount) => amount,
        Err(e) => { return Err(e); },
    };
    let fee_amount = match ctx.calculate_fee_amount(stablecoin_amount) {
        Ok(amount) => amount,
        Err(e) => { return Err(e); },
    };
    let user = ctx.user;
    let now = ctx.unix_timestamp;
    match ctx.stablecoin_state.check_debit(&user, bond_amount, stablecoin_amount, now) {
        Ok(_) => {},
        Err(e) => { return Err(e); },
    }
    let bond_mint = ctx.stablecoin_state.bond_mint;
    match ctx.factory_state.update_bond_collateral(&bond_mint, bond_amount, false) {
        Ok(_) => {},
        Err(e) => { return Err(e); },
    }
    ctx.stablecoin_state.last_price_update = ctx.oracle.round_open_timestamp;
    match ctx.update_user_share(user, bond_amount, stablecoin_amount) {
        Ok(_) => {},
        Err(e) => { return Err(e); },
    }
    Ok(
        BurnReceipt {
            fee_amount,
            event: StablecoinBurned {
                user,
                mint: ctx.stablecoin_mint,
                bond_amount,
                stablecoin_amount,
                bond_price,
                timestamp: ctx.unix_timestamp,
            },
        },
    )
}

/// Burns `stablecoin_amount` of the signer's supply.
pub fn burn_stablecoin(ctx: &mut BurnStablecoin, stablecoin_amount: u64) -> (r: Result<
    BurnReceipt,
    StablecoinError,
>)
    ensures
        match old(ctx).burn_outcome(stablecoin_amount, kyc_pda(old(ctx).user@)) {
            Err(e) => r == Err::<BurnReceipt, StablecoinError>(e) && *final(ctx) == *old(ctx),
            Ok(receipt) => r == Ok::<BurnReceipt, StablecoinError>(receipt)
                && final(ctx).is_burn_of(
                *old(ctx),
                receipt,
            ),
        },
        old(ctx).stablecoin_state.is_balanced() ==> final(ctx).stablecoin_state.is_balanced(),
        old(ctx).stablecoin_state.ledger_is_sound() ==>
            final(ctx).stablecoin_state.ledger_is_sound(),
        old(ctx).factory_state.tracker_follows_registry() ==>
            final(ctx).factory_state.tracker_follows_registry(),
        old(ctx).factory_state.registry_is_sound() ==> final(ctx).factory_state.registry_is_sound(),
        r matches Ok(receipt) ==> final(ctx).factory_state.collateral_in_use(
            old(ctx).stablecoin_state.bond_mint,
        ) == old(ctx).factory_state.collateral_in_use(old(ctx).stablecoin_state.bond_mint)
            - receipt.event.bond_amount,
        r.is_ok() ==> final(ctx).stablecoin_state.last_price_update
            == old(ctx).oracle.round_open_timestamp,
{
    let expected = kyc_address(&ctx.user);
    burn_stablecoin_with(ctx, stablecoin_amount, &expected)
}

} // verus!
