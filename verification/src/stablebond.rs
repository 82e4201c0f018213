//! The bond program: its identity, the addresses it derives and the records
//! it keeps in its accounts.
//!
//! Addresses are derived and records are decoded by the bond program's own
//! library. What it returns is named here and taken on trust; everything
//! decided from it is verified.

use vstd::prelude::*;
use anchor_lang::AnchorDeserialize;
use anchor_lang::prelude::Pubkey;
use stablebond_sdk::accounts::Bond;
use stablebond_sdk::accounts::PaymentFeed;
use stablebond_sdk::types::PaymentFeedType as SdkFeedType;
use crate::address::Address;
use crate::errors::InstructionError;

verus! {

/// The bytes of the address of the bond program.
pub const STABLEBOND_PROGRAM_ID: [u8; 32] = [
    160, 145, 48, 99, 66, 106, 167, 11, 171, 7, 109, 74, 19, 161, 245, 204,
    114, 39, 235, 174, 121, 180, 100, 159, 155, 149, 42, 250, 146, 203, 1, 186,
];

/// The address of the bond program.
pub fn stablebond_program() -> (r: Address)
    ensures
        r.bytes == STABLEBOND_PROGRAM_ID,
{
    Address { bytes: STABLEBOND_PROGRAM_ID }
}

/// The pair of currencies that the payments of a bond are quoted in, and the
/// kind of feed that quotes it.
#[derive(Clone, Copy, Debug, PartialEq, Eq, Structural)]
pub enum PaymentFeedType {
    UsdcUsd,
    UsdcMxn,
    SwitchboardUsdcUsd,
    SwitchboardUsdcMxn,
    Stub,
    SwitchboardUsdcBrl,
    SwitchboardUsdcEur,
    SwitchboardUsdcGbp,
    SwitchboardOnDemandUsdcMxn,
    SwitchboardOnDemandUsdcBrl,
    SwitchboardOnDemandUsdcEur,
    SwitchboardOnDemandUsdcGbp,
    SwitchboardOnDemandUsdcUsd,
    SwitchboardOnDemandUsdcKrw,
}

/// How many kinds of payment feed there are.
pub const PAYMENT_FEED_TYPES: u8 = 14;

impl PaymentFeedType {
    /// The number under which the bond program stores this kind of feed.
    pub open spec fn index_of(self) -> u8 {
        match self {
            PaymentFeedType::UsdcUsd => 0,
            PaymentFeedType::UsdcMxn => 1,
            PaymentFeedType::SwitchboardUsdcUsd => 2,
            PaymentFeedType::SwitchboardUsdcMxn => 3,
            PaymentFeedType::Stub => 4,
            PaymentFeedType::SwitchboardUsdcBrl => 5,
            PaymentFeedType::SwitchboardUsdcEur => 6,
            PaymentFeedType::SwitchboardUsdcGbp => 7,
            PaymentFeedType::SwitchboardOnDemandUsdcMxn => 8,
            PaymentFeedType::SwitchboardOnDemandUsdcBrl => 9,
            PaymentFeedType::SwitchboardOnDemandUsdcEur => 10,
            PaymentFeedType::SwitchboardOnDemandUsdcGbp => 11,
            PaymentFeedType::SwitchboardOnDemandUsdcUsd => 12,
            PaymentFeedType::SwitchboardOnDemandUsdcKrw => 13,
        }
    }

    /// The kind of feed stored under `index`, if there is one.
    pub open spec fn of_index(index: u8) -> Option<PaymentFeedType> {
        match index {
            0 => Some(PaymentFeedType::UsdcUsd),
            1 => Some(PaymentFeedType::UsdcMxn),
            2 => Some(PaymentFeedType::SwitchboardUsdcUsd),
            3 => Some(PaymentFeedType::SwitchboardUsdcMxn),
            4 => Some(PaymentFeedType::Stub),
            5 => Some(PaymentFeedType::SwitchboardUsdcBrl),
            6 => Some(PaymentFeedType::SwitchboardUsdcEur),
            7 => Some(PaymentFeedType::SwitchboardUsdcGbp),
            8 => Some(PaymentFeedType::SwitchboardOnDemandUsdcMxn),
            9 => Some(PaymentFeedType::SwitchboardOnDemandUsdcBrl),
            10 => Some(PaymentFeedType::SwitchboardOnDemandUsdcEur),
            11 => Some(PaymentFeedType::SwitchboardOnDemandUsdcGbp),
            12 => Some(PaymentFeedType::SwitchboardOnDemandUsdcUsd),
            13 => Some(PaymentFeedType::SwitchboardOnDemandUsdcKrw),
            _ => None,
        }
    }

    /// Whether the feed quotes the dollar against itself, so that no
    /// conversion applies.
    pub open spec fn quotes_usd(self) -> bool {
        match self {
            PaymentFeedType::UsdcUsd => true,
            PaymentFeedType::SwitchboardUsdcUsd => true,
            PaymentFeedType::SwitchboardOnDemandUsdcUsd => true,
            PaymentFeedType::Stub => true,
            _ => false,
        }
    }

    /// The number under which the bond program stores this kind of feed.
    pub fn index(self) -> (r: u8)
        ensures
            r == self.index_of(),
            r < PAYMENT_FEED_TYPES,
            PaymentFeedType::of_index(r) == Some(self),
    {
        match self {
            PaymentFeedType::UsdcUsd => 0,
            PaymentFeedType::UsdcMxn => 1,
            PaymentFeedType::SwitchboardUsdcUsd => 2,
            PaymentFeedType::SwitchboardUsdcMxn => 3,
            PaymentFeedType::Stub => 4,
            PaymentFeedType::SwitchboardUsdcBrl => 5,
            PaymentFeedType::SwitchboardUsdcEur => 6,
            PaymentFeedType::SwitchboardUsdcGbp => 7,
            PaymentFeedType::SwitchboardOnDemandUsdcMxn => 8,
            PaymentFeedType::SwitchboardOnDemandUsdcBrl => 9,
            PaymentFeedType::SwitchboardOnDemandUsdcEur => 10,
            PaymentFeedType::SwitchboardOnDemandUsdcGbp => 11,
            PaymentFeedType::SwitchboardOnDemandUsdcUsd => 12,
            PaymentFeedType::SwitchboardOnDemandUsdcKrw => 13,
        }
    }

    /// The kind of feed stored under `index`, if there is one.
    pub fn from_index(index: u8) -> (r: Option<PaymentFeedType>)
        ensures
            r == PaymentFeedType::of_index(index),
            r.is_some() == (index < PAYMENT_FEED_TYPES),
            r matches Some(t) ==> t.index_of() == index,
    {
        match index {
            0 => Some(PaymentFeedType::UsdcUsd),
            1 => Some(PaymentFeedType::UsdcMxn),
            2 => Some(PaymentFeedType::SwitchboardUsdcUsd),
            3 => Some(PaymentFeedType::SwitchboardUsdcMxn),
            4 => Some(PaymentFeedType::Stub),
            5 => Some(PaymentFeedType::SwitchboardUsdcBrl),
            6 => Some(PaymentFeedType::SwitchboardUsdcEur),
            7 => Some(PaymentFeedType::SwitchboardUsdcGbp),
            8 => Some(PaymentFeedType::SwitchboardOnDemandUsdcMxn),
            9 => Some(PaymentFeedType::SwitchboardOnDemandUsdcBrl),
            10 => Some(PaymentFeedType::SwitchboardOnDemandUsdcEur),
            11 => Some(PaymentFeedType::SwitchboardOnDemandUsdcGbp),
            12 => Some(PaymentFeedType::SwitchboardOnDemandUsdcUsd),
            13 => Some(PaymentFeedType::SwitchboardOnDemandUsdcKrw),
            _ => None,
        }
    }

    /// Whether the feed quotes the dollar against itself.
    pub fn is_usd_quoted(self) -> (r: bool)
        ensures
            r == self.quotes_usd(),
    {
        match self {
            PaymentFeedType::UsdcUsd => true,
            PaymentFeedType::SwitchboardUsdcUsd => true,
            PaymentFeedType::SwitchboardOnDemandUsdcUsd => true,
            PaymentFeedType::Stub => true,
            _ => false,
        }
    }
}

/// What the engine reads of a bond record: the mint of the bond and the
/// number of its kind of payment feed.
#[derive(Clone, Copy, Debug, PartialEq, Eq)]
pub struct BondRecord {
    pub mint: Address,
    pub payment_feed_index: u8,
}

impl View for BondRecord {
    type V = (Seq<u8>, u8);

    open spec fn view(&self) -> (Seq<u8>, u8) {
        (self.mint@, self.payment_feed_index)
    }
}

/// What was decoded, as plain values: the bytes of the mint and the number of
/// the kind of payment feed.
pub open spec fn record_view(bond: Option<BondRecord>) -> Option<(Seq<u8>, u8)> {
    match bond {
        Some(record) => Some(record@),
        None => None,
    }
}

/// The address at which the bond program keeps the identity check of the
/// wallet with the given bytes.
pub uninterp spec fn kyc_pda(user_wallet: Seq<u8>) -> Seq<u8>;

/// The address at which the bond program keeps the record of the bond with
/// the mint of the given bytes.
pub uninterp spec fn bond_pda(mint: Seq<u8>) -> Seq<u8>;

/// The address at which the bond program keeps the payment feed of the kind
/// with the given number.
pub uninterp spec fn payment_feed_pda(feed_index: u8) -> Seq<u8>;

/// The mint and the number of the kind of payment feed of the bond record that
/// the given bytes encode, if they encode one.
pub uninterp spec fn decoded_bond(data: Seq<u8>) -> Option<(Seq<u8>, u8)>;

/// The payment mint of the payment feed record that the given bytes encode, if
/// they encode one.
pub uninterp spec fn decoded_payment_mint(data: Seq<u8>) -> Option<Seq<u8>>;

/// Calls `stablebond_sdk::find_kyc_pda`, which derives an address from the
/// text "kyc", the wallet and the bond program's identity, and drops the bump
/// seed. The result depends on the wallet alone. The derivation searches the
/// 255 bump seeds for one whose hash lies off the curve and gives up, with a
/// panic, only if none does.
#[verifier::external_body]
pub(crate) fn kyc_address(user_wallet: &Address) -> (r: Address)
    ensures
        r@ == kyc_pda(user_wallet@),
{
    let (address, _) = stablebond_sdk::find_kyc_pda(Pubkey::new_from_array(user_wallet.bytes));
    Address { bytes: address.to_bytes() }
}

/// Calls `stablebond_sdk::find_bond_pda`, which derives an address from the
/// text "bond", the mint and the bond program's identity, and drops the bump
/// seed. The result depends on the mint alone; the search for a bump seed is
/// that of [`kyc_address`].
#[verifier::external_body]
pub(crate) fn bond_address(mint: &Address) -> (r: Address)
    ensures
        r@ == bond_pda(mint@),
{
    let (address, _) = stablebond_sdk::find_bond_pda(Pubkey::new_from_array(mint.bytes));
    Address { bytes: address.to_bytes() }
}

/// Calls `stablebond_sdk::find_payment_feed_pda`, which derives an address from
/// the text "payment_feed", the name of the kind of feed and the bond
/// program's identity, and drops the bump seed. The result depends on the kind
/// alone; the search for a bump seed is that of [`kyc_address`].
#[verifier::external_body]
pub(crate) fn payment_feed_address(feed_type: PaymentFeedType) -> (r: Address)
    ensures
        r@ == payment_feed_pda(feed_type.index_of()),
{
    let kind = match feed_type {
        PaymentFeedType::UsdcUsd => SdkFeedType::UsdcUsd, PaymentFeedType::UsdcMxn => SdkFeedType::UsdcMxn,
        PaymentFeedType::SwitchboardUsdcUsd => SdkFeedType::SwitchboardUsdcUsd, PaymentFeedType::SwitchboardUsdcMxn => SdkFeedType::SwitchboardUsdcMxn,
        PaymentFeedType::Stub => SdkFeedType::Stub, PaymentFeedType::SwitchboardUsdcBrl => SdkFeedType::SwitchboardUsdcBrl,
        PaymentFeedType::SwitchboardUsdcEur => SdkFeedType::SwitchboardUsdcEur, PaymentFeedType::SwitchboardUsdcGbp => SdkFeedType::SwitchboardUsdcGbp,
        PaymentFeedType::SwitchboardOnDemandUsdcMxn => SdkFeedType::SwitchboardOnDemandUsdcMxn, PaymentFeedType::SwitchboardOnDemandUsdcBrl => SdkFeedType::SwitchboardOnDemandUsdcBrl,
        PaymentFeedType::SwitchboardOnDemandUsdcEur => SdkFeedType::SwitchboardOnDemandUsdcEur, PaymentFeedType::SwitchboardOnDemandUsdcGbp => SdkFeedType::SwitchboardOnDemandUsdcGbp,
        PaymentFeedType::SwitchboardOnDemandUsdcUsd => SdkFeedType::SwitchboardOnDemandUsdcUsd, PaymentFeedType::SwitchboardOnDemandUsdcKrw => SdkFeedType::SwitchboardOnDemandUsdcKrw,
    };
    Address { bytes: stablebond_sdk::find_payment_feed_pda(kind).0.to_bytes() }
}

/// Calls `try_from_slice` on `stablebond_sdk::accounts::Bond`, which decodes a
/// bond record from exactly the given bytes or fails, and keeps of the
/// record its mint and the number of its kind of payment feed: the place of
/// the kind in the bond program's list of kinds, counted from zero. The
/// result depends on the bytes alone.
#[verifier::external_body]
pub(crate) fn decode_bond(data: &Vec<u8>) -> (r: Option<BondRecord>)
    ensures
        record_view(r) == decoded_bond(data@),
{
    match Bond::try_from_slice(data) {
        Ok(bond) => Some(
            BondRecord {
                mint: Address { bytes: bond.mint.to_bytes() },
                payment_feed_index: bond.payment_feed_type as u8,
            },
        ),
        Err(_) => None,
    }
}

/// Calls `try_from_slice` on `stablebond_sdk::accounts::PaymentFeed`, which
/// decodes a payment feed record from exactly the given bytes or fails, and
/// keeps of the record its payment mint. The result depends on the bytes
/// alone.
#[verifier::external_body]
pub(crate) fn decode_payment_feed(data: &Vec<u8>) -> (r: Option<Address>)
    ensures
        (match r {
            Some(mint) => Some(mint@),
            None => None,
        }) == decoded_payment_mint(data@),
{
    match PaymentFeed::try_from_slice(data) {
        Ok(feed) => Some(Address { bytes: feed.payment_mint.to_bytes() }),
        Err(_) => None,
    }
}

/// The kind of payment feed of a decoded bond record. Where nothing was
/// decoded, or the kind is unknown, the data of the account cannot be used.
pub open spec fn feed_type_read(decoded: Option<(Seq<u8>, u8)>) -> Result<
    PaymentFeedType,
    InstructionError,
> {
    match decoded {
        Some((_, index)) => match PaymentFeedType::of_index(index) {
            Some(feed_type) => Ok(feed_type),
            None => Err(InstructionError::AccountData),
        },
        None => Err(InstructionError::AccountData),
    }
}

/// The kind of payment feed of a decoded bond record, or the failure to
/// report where nothing was decoded or the kind is unknown.
pub fn interpret_bond(bond: &Option<BondRecord>) -> (r: Result<PaymentFeedType, InstructionError>)
    ensures
        r == feed_type_read(record_view(*bond)),
{
    match bond {
        Some(record) => match PaymentFeedType::from_index(record.payment_feed_index) {
            Some(feed_type) => Ok(feed_type),
            None => Err(InstructionError::AccountData),
        },
        None => Err(InstructionError::AccountData),
    }
}

} // verus!
