//! Registering a bond.

use vstd::prelude::*;
use crate::accounts::AccountSnapshot;
use crate::address::address_of;
use crate::address::lemma_address_of_view;
use crate::address::Address;
use crate::errors::InstructionError;
use crate::errors::StablecoinError;
use crate::events::BondAdded;
use crate::stablebond::bond_address;
use crate::stablebond::bond_pda;
use crate::stablebond::decode_bond;
use crate::stablebond::decode_payment_feed;
use crate::stablebond::decoded_bond;
use crate::stablebond::decoded_payment_mint;
use crate::stablebond::feed_type_read;
use crate::stablebond::interpret_bond;
use crate::stablebond::payment_feed_address;
use crate::stablebond::payment_feed_pda;
use crate::states::factory_state::tracking_with;
use crate::states::factory_state::FactoryState;

verus! {

/// What registering a bond works on.
#[derive(Clone, Debug, PartialEq, Eq)]
pub struct AddSupportedBond {
    /// The admin, who signs.
    pub admin: Address,
    pub factory_state: FactoryState,
    /// The mint of the bond.
    pub bond_mint: Address,
    /// The account said to hold the record of the bond.
    pub bond_info: AccountSnapshot,
    /// The account said to hold the payment feed of the bond.
    pub payment_feed_info: AccountSnapshot,
    /// The current time.
    pub unix_timestamp: i64,
}

/// The payment mint of a decoded payment feed, as plain values.
pub open spec fn mint_view(payment_mint: Option<Address>) -> Option<Seq<u8>> {
    match payment_mint {
        Some(mint) => Some(mint@),
        None => None,
    }
}

impl AddSupportedBond {
    /// Whether the accounts fit together: the signer is the admin.
    pub open spec fn account_check(&self) -> Result<(), StablecoinError> {
        if self.admin != self.factory_state.admin {
            Err(StablecoinError::UnauthorizedAdmin)
        } else {
            Ok(())
        }
    }

    /// Whether the bond account handed in is the one at which the bond
    /// program keeps the record of the bond.
    pub open spec fn bond_account_check(&self, bond_account: Seq<u8>) -> Result<(), StablecoinError> {
        if self.bond_info.key@ != bond_account {
            Err(StablecoinError::InvalidBondAccount)
        } else {
            Ok(())
        }
    }

    /// What registering comes to once the bond's record is read: the payment
    /// feed account must be the expected one and decode, and the registry
    /// must take the bond.
    pub open spec fn registration(
        &self,
        min_creation_amount: u64,
        min_redemption_amount: u64,
        payment_feed_account: Seq<u8>,
        payment_mint: Option<Seq<u8>>,
    ) -> Result<BondAdded, InstructionError> {
        if self.payment_feed_info.key@ != payment_feed_account {
            Err(InstructionError::Rule(StablecoinError::InvalidPaymentFeed))
        } else {
            match payment_mint {
                None => Err(InstructionError::AccountData),
                Some(mint) => match self.factory_state.bond_added(
                    self.bond_mint,
                    address_of(mint),
                    min_creation_amount,
                    min_redemption_amount,
                ) {
                    Err(e) => Err(InstructionError::Rule(e)),
                    Ok(_) => Ok(
                        BondAdded {
                            bond_mint: self.bond_mint,
                            payment_mint: address_of(mint),
                            admin: self.admin,
                            timestamp: self.unix_timestamp,
                        },
                    ),
                },
            }
        }
    }

    /// What registering comes to: the event that reports the new bond, or the
    /// first reason to refuse it.
    pub open spec fn addition(&self, min_creation_amount: u64, min_redemption_amount: u64) -> Result<
        BondAdded,
        InstructionError,
    > {
        match self.bond_account_check(bond_pda(self.bond_mint@)) {
            Err(e) => Err(InstructionError::Rule(e)),
            Ok(_) => match feed_type_read(decoded_bond(self.bond_info.data@)) {
                Err(e) => Err(e),
                Ok(feed_type) => self.registration(
                    min_creation_amount,
                    min_redemption_amount,
                    payment_feed_pda(feed_type.index_of()),
                    decoded_payment_mint(self.payment_feed_info.data@),
                ),
            },
        }
    }

    /// These records are `before` after the registration that `event`
    /// reports: the bond stands at the end of the registry, enabled and
    /// without a fee rate of its own, it has an entry in the collateral
    /// tracker, and nothing else changed.
    pub open spec fn is_addition_of(
        &self,
        before: AddSupportedBond,
        min_creation_amount: u64,
        min_redemption_amount: u64,
        event: BondAdded,
    ) -> bool {
        &&& before.factory_state.bond_added(
            event.bond_mint,
            event.payment_mint,
            min_creation_amount,
            min_redemption_amount,
        ) matches Ok(configs) && self.factory_state.is_listing_change_of(
            before.factory_state,
            configs,
            tracking_with(before.factory_state.bond_collateral_tracking@, event.bond_mint),
        )
        &&& *self == (AddSupportedBond { factory_state: self.factory_state, ..before })
    }

    /// Checks that the accounts fit together.
    pub fn check_accounts(&self) -> (r: Result<(), StablecoinError>)
        ensures
            r == self.account_check(),
    {
        if self.admin != self.factory_state.admin {
            return Err(StablecoinError::UnauthorizedAdmin);
        }
        Ok(())
    }

    /// Accepts the bond account handed in if it is at `bond_account`.
    pub fn check_bond_account(&self, bond_account: &Address) -> (r: Result<(), StablecoinError>)
        ensures
            r == self.bond_account_check(bond_account@),
    {
        proof {
            Address::lemma_view_injective(self.bond_info.key, *bond_account);
        }
        if self.bond_info.key != *bond_account {
            return Err(StablecoinError::InvalidBondAccount);
        }
        Ok(())
    }
}

/// Registers the bond once its record is read, given the address of the
/// payment feed of the bond's kind and the payment mint that the payment feed
/// account decodes to.
///
/// Either the registration is refused and nothing changes, or the bond is
/// added to the registry with the payment mint of its feed.
pub fn register_bond(
    ctx: &mut AddSupportedBond,
    min_creation_amount: u64,
    min_redemption_amount: u64,
    payment_feed_account: &Address,
    payment_mint: &Option<Address>,
) -> (r: Result<BondAdded, InstructionError>)
    ensures
        match old(ctx).registration(
            min_creation_amount,
            min_redemption_amount,
            payment_feed_account@,
            mint_view(*payment_mint),
        ) {
            Err(e) => r == Err::<BondAdded, InstructionError>(e) && *final(ctx) == *old(ctx),
            Ok(event) => r == Ok::<BondAdded, InstructionError>(event) && final(ctx).is_addition_of(
                *old(ctx),
                min_creation_amount,
                min_redemption_amount,
                event,
            ),
        },
        old(ctx).factory_state.registry_is_sound() ==> final(ctx).factory_state.registry_is_sound(),
        old(ctx).factory_state.tracker_follows_registry() ==>
            final(ctx).factory_state.tracker_follows_registry(),
{
    proof {
        Address::lemma_view_injective(ctx.payment_feed_info.key, *payment_feed_account);
    }
    if ctx.payment_feed_info.key != *payment_feed_account {
        return Err(InstructionError::Rule(StablecoinError::InvalidPaymentFeed));
    }
    let mint: Address = match payment_mint {
        Some(mint) => *mint,
        None => { return Err(InstructionError::AccountData); },
    };
    proof {
        lemma_address_of_view(mint);
    }
    let bond_mint = ctx.bond_mint;
    match ctx.factory_state.add_supported_bond(
        bond_mint,
        mint,
        min_creation_amount,
        min_redemption_amount,
    ) {
        Ok(_) => {},
        Err(e) => { return Err(InstructionError::Rule(e)); },
    }
    Ok(
        BondAdded {
            bond_mint,
            payment_mint: mint,
            admin: ctx.admin,
            timestamp: ctx.unix_timestamp,
        },
    )
}

/// Registers the bond of the context with the given minimum amounts: the bond
/// account and the payment feed account must be the ones the bond program
/// keeps for the bond, and both must decode.
pub fn add_supported_bond(
    ctx: &mut AddSupportedBond,
    min_creation_amount: u64,
    min_redemption_amount: u64,
) -> (r:
    Result<BondAdded, InstructionError>)
    ensures
        match old(ctx).addition(min_creation_amount, min_redemption_amount) {
            Err(e) => r == Err::<BondAdded, InstructionError>(e) && *final(ctx) == *old(ctx),
            Ok(event) => r == Ok::<BondAdded, InstructionError>(event) && final(ctx).is_addition_of(
                *old(ctx),
                min_creation_amount,
                min_redemption_amount,
                event,
            ),
        },
        old(ctx).factory_state.registry_is_sound() ==> final(ctx).factory_state.registry_is_sound(),
        old(ctx).factory_state.tracker_follows_registry() ==>
            final(ctx).factory_state.tracker_follows_registry(),
{
    let bond_account = bond_address(&ctx.bond_mint);
    match ctx.check_bond_account(&bond_account) {
        Ok(_) => {},
        Err(e) => { return Err(InstructionError::Rule(e)); },
    }
    let bond = decode_bond(&ctx.bond_info.data);
    let feed_type = match interpret_bond(&bond) {
        Ok(feed_type) => feed_type,
        Err(e) => { return Err(e); },
    };
    let payment_feed_account = payment_feed_address(feed_type);
    let payment_mint = decode_payment_feed(&ctx.payment_feed_info.data);
    register_bond(
        ctx,
        min_creation_amount,
        min_redemption_amount,
        &payment_feed_account,
        &payment_mint,
    )
}

} // verus!
