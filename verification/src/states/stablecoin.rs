//! One stablecoin: its parameters, its aggregates and the ledger of its
//! depositors.
//!
//! The ledger and the two aggregates change together or not at all: a credit
//! or a debit that is refused leaves the whole record as it was.

use vstd::prelude::*;
use crate::address::Address;
use crate::constants::MAX_USER_SHARES;
use crate::errors::StablecoinError;
use crate::lookup::all_distinct;
use crate::lookup::first_index;
use crate::lookup::lemma_first_index;
use crate::lookup::lemma_first_index_absent;
use crate::lookup::lemma_first_index_found;
use crate::states::user::UserShare;

verus! {

/// What the engine keeps of one stablecoin.
#[derive(Clone, Debug, PartialEq, Eq)]
pub struct StablecoinState {
    pub name: String,
    pub symbol: String,
    /// The symbol the stablecoin was created under, which its address is derived from.
    pub original_symbol: String,
    pub target_currency: String,
    pub creator: Address,
    pub mint: Address,
    pub last_updated: i64,
    /// The ledger: one entry per depositor.
    pub user_shares: Vec<UserShare>,
    /// The bond used as collateral.
    pub stablebond_mint: Address,
    /// The vault that holds the collateral.
    pub collateral_vault: Address,
    /// Collateral per unit of supply, in basis points.
    pub collateral_ratio: u16,
    pub total_supply: u64,
    pub total_collateral: u64,
    /// When yield was last computed and distributed.
    pub last_rebase: i64,
    /// Yield distributed by all rebases so far.
    pub total_rebase_amount: u64,
    pub last_yield_collection: i64,
    pub last_rate_update: i64,
    pub yield_mint: Address,
    pub total_yield_collected: u64,
    pub bond_mint: Address,
    /// The oracle that quotes the bond.
    pub fiat_oracle: Address,
    /// When the oracle round was opened whose price the last accepted mint or
    /// burn used.
    pub last_price_update: i64,
    pub is_paused: bool,
    /// In basis points.
    pub fee_rate: u16,
    pub last_fee_collection: i64,
    pub bump: u8,
    pub reserved: [u8; 32],
}

/// The owners of the entries of a ledger, in order.
pub open spec fn share_owners(shares: Seq<UserShare>) -> Seq<Address> {
    shares.map_values(|s: UserShare| s.owner)
}

/// The collateral recorded in a ledger, over all its entries.
pub open spec fn total_bond(shares: Seq<UserShare>) -> int
    decreases shares.len(),
{
    if shares.len() == 0 {
        0
    } else {
        total_bond(shares.drop_last()) + shares.last().bond_amount
    }
}

/// The supply recorded in a ledger, over all its entries.
pub open spec fn total_mint(shares: Seq<UserShare>) -> int
    decreases shares.len(),
{
    if shares.len() == 0 {
        0
    } else {
        total_mint(shares.drop_last()) + shares.last().mint_amount
    }
}

/// The ledger after `owner` has deposited `bond_amount` and been issued
/// `mint_amount` at time `now`.
///
/// The first entry of the owner grows; where there is none, one is added at
/// the end, unless the ledger is full.
pub open spec fn credited(
    shares: Seq<UserShare>,
    owner: Address,
    bond_amount: u64,
    mint_amount: u64,
    now: i64,
) -> Result<Seq<UserShare>, StablecoinError> {
    match first_index(share_owners(shares), owner) {
        Some(i) => if shares[i].bond_amount + bond_amount > u64::MAX || shares[i].mint_amount
            + mint_amount > u64::MAX {
            Err(StablecoinError::MathOverflow)
        } else {
            Ok(
                shares.update(
                    i,
                    UserShare {
                        owner,
                        bond_amount: (shares[i].bond_amount + bond_amount) as u64,
                        mint_amount: (shares[i].mint_amount + mint_amount) as u64,
                        timestamp: now,
                    },
                ),
            )
        },
        None => if shares.len() >= MAX_USER_SHARES {
            Err(StablecoinError::TooManyUsers)
        } else {
            Ok(shares.push(UserShare { owner, bond_amount, mint_amount, timestamp: now }))
        },
    }
}

/// The ledger after `owner` has been returned `bond_amount` for `mint_amount`
/// of supply at time `now`.
///
/// The first entry of the owner shrinks, and is removed when nothing is left
/// in it.
pub open spec fn debited(
    shares: Seq<UserShare>,
    owner: Address,
    bond_amount: u64,
    mint_amount: u64,
    now: i64,
) -> Result<Seq<UserShare>, StablecoinError> {
    match first_index(share_owners(shares), owner) {
        Some(i) => if shares[i].bond_amount < bond_amount || shares[i].mint_amount < mint_amount {
            Err(StablecoinError::InsufficientUserShare)
        } else if shares[i].bond_amount == bond_amount && shares[i].mint_amount == mint_amount {
            Ok(shares.remove(i))
        } else {
            Ok(
                shares.update(
                    i,
                    UserShare {
                        owner,
                        bond_amount: (shares[i].bond_amount - bond_amount) as u64,
                        mint_amount: (shares[i].mint_amount - mint_amount) as u64,
                        timestamp: now,
                    },
                ),
            )
        },
        None => Err(StablecoinError::UserShareNotFound),
    }
}

/// Replacing one entry changes each total by the difference between the new
/// entry and the old.
pub proof fn lemma_totals_after_update(shares: Seq<UserShare>, i: int, share: UserShare)
    requires
        0 <= i < shares.len(),
    ensures
        total_bond(shares.update(i, share)) == total_bond(shares) - shares[i].bond_amount
            + share.bond_amount,
        total_mint(shares.update(i, share)) == total_mint(shares) - shares[i].mint_amount
            + share.mint_amount,
    decreases shares.len(),
{
    let after = shares.update(i, share);
    if i == shares.len() - 1 {
        assert(after.drop_last() =~= shares.drop_last());
    } else {
        assert(after.drop_last() =~= shares.drop_last().update(i, share));
        lemma_totals_after_update(shares.drop_last(), i, share);
    }
}

/// Adding an entry adds its amounts to the totals.
pub proof fn lemma_totals_after_push(shares: Seq<UserShare>, share: UserShare)
    ensures
        total_bond(shares.push(share)) == total_bond(shares) + share.bond_amount,
        total_mint(shares.push(share)) == total_mint(shares) + share.mint_amount,
{
    assert(shares.push(share).drop_last() =~= shares);
}

/// Removing an entry takes its amounts from the totals.
pub proof fn lemma_totals_after_remove(shares: Seq<UserShare>, i: int)
    requires
        0 <= i < shares.len(),
    ensures
        total_bond(shares.remove(i)) == total_bond(shares) - shares[i].bond_amount,
        total_mint(shares.remove(i)) == total_mint(shares) - shares[i].mint_amount,
    decreases shares.len(),
{
    let after = shares.remove(i);
    if i == shares.len() - 1 {
        assert(after =~= shares.drop_last());
    } else {
        assert(after.drop_last() =~= shares.drop_last().remove(i));
        assert(after.last() == shares.last());
        lemma_totals_after_remove(shares.drop_last(), i);
    }
}

/// No total is negative, and no entry holds more than the total.
pub proof fn lemma_totals_bound_entries(shares: Seq<UserShare>, i: int)
    requires
        0 <= i < shares.len(),
    ensures
        0 <= shares[i].bond_amount <= total_bond(shares),
        0 <= shares[i].mint_amount <= total_mint(shares),
    decreases shares.len(),
{
    lemma_totals_nonnegative(shares.drop_last());
    if i < shares.len() - 1 {
        lemma_totals_bound_entries(shares.drop_last(), i);
    }
}

/// No total is negative.
pub proof fn lemma_totals_nonnegative(shares: Seq<UserShare>)
    ensures
        0 <= total_bond(shares),
        0 <= total_mint(shares),
    decreases shares.len(),
{
    if shares.len() > 0 {
        lemma_totals_nonnegative(shares.drop_last());
    }
}

/// A credit that is accepted adds exactly the credited amounts to the totals
/// of the ledger, keeps its owners distinct and keeps it within its bound.
pub proof fn lemma_credit_keeps_ledger(
    shares: Seq<UserShare>,
    owner: Address,
    bond_amount: u64,
    mint_amount: u64,
    now: i64,
)
    requires
        credited(shares, owner, bond_amount, mint_amount, now).is_ok(),
    ensures
        ({
            let after = credited(shares, owner, bond_amount, mint_amount, now).unwrap();
            &&& total_bond(after) == total_bond(shares) + bond_amount
            &&& total_mint(after) == total_mint(shares) + mint_amount
            &&& first_index(share_owners(after), owner).is_some()
            &&& all_distinct(share_owners(shares)) ==> all_distinct(share_owners(after))
            &&& shares.len() <= MAX_USER_SHARES ==> after.len() <= MAX_USER_SHARES
        }),
{
    let keys = share_owners(shares);
    let after = credited(shares, owner, bond_amount, mint_amount, now).unwrap();
    lemma_first_index(keys, owner);
    match first_index(keys, owner) {
        Some(i) => {
            lemma_totals_after_update(shares, i, after[i]);
            assert(share_owners(after) =~= keys);
        },
        None => {
            let share = UserShare { owner, bond_amount, mint_amount, timestamp: now };
            lemma_totals_after_push(shares, share);
            assert(share_owners(after) =~= keys.push(owner));
            assert forall|j: int| 0 <= j < keys.len() implies keys[j] != owner by {}
            assert(keys.push(owner)[keys.len() as int] == owner);
            lemma_first_index(keys.push(owner), owner);
        },
    }
}

/// A debit that is accepted takes exactly the debited amounts from the totals
/// of the ledger, keeps its owners distinct and keeps it within its bound.
pub proof fn lemma_debit_keeps_ledger(
    shares: Seq<UserShare>,
    owner: Address,
    bond_amount: u64,
    mint_amount: u64,
    now: i64,
)
    requires
        debited(shares, owner, bond_amount, mint_amount, now).is_ok(),
    ensures
        ({
            let after = debited(shares, owner, bond_amount, mint_amount, now).unwrap();
            &&& total_bond(after) == total_bond(shares) - bond_amount
            &&& total_mint(after) == total_mint(shares) - mint_amount
            &&& bond_amount <= total_bond(shares)
            &&& mint_amount <= total_mint(shares)
            &&& all_distinct(share_owners(shares)) ==> all_distinct(share_owners(after))
            &&& after.len() <= shares.len()
        }),
{
    let keys = share_owners(shares);
    let after = debited(shares, owner, bond_amount, mint_amount, now).unwrap();
    lemma_first_index(keys, owner);
    let i = first_index(keys, owner).unwrap();
    lemma_totals_bound_entries(shares, i);
    if shares[i].bond_amount == bond_amount && shares[i].mint_amount == mint_amount {
        lemma_totals_after_remove(shares, i);
        assert(share_owners(after) =~= keys.remove(i));
    } else {
        lemma_totals_after_update(shares, i, after[i]);
        assert(share_owners(after) =~= keys);
    }
}

/// A depositor whose entry a debit brings to zero collateral and zero supply
/// has no entry in the ledger afterwards.
pub proof fn lemma_emptied_entry_is_removed(
    shares: Seq<UserShare>,
    owner: Address,
    bond_amount: u64,
    mint_amount: u64,
    now: i64,
)
    requires
        all_distinct(share_owners(shares)),
        debited(shares, owner, bond_amount, mint_amount, now).is_ok(),
        ({
            let i = first_index(share_owners(shares), owner).unwrap();
            shares[i].bond_amount == bond_amount && shares[i].mint_amount == mint_amount
        }),
    ensures
        first_index(
            share_owners(debited(shares, owner, bond_amount, mint_amount, now).unwrap()),
            owner,
        ).is_none(),
{
    let keys = share_owners(shares);
    let after = debited(shares, owner, bond_amount, mint_amount, now).unwrap();
    lemma_first_index(keys, owner);
    let i = first_index(keys, owner).unwrap();
    assert(share_owners(after) =~= keys.remove(i));
    assert forall|j: int| 0 <= j < keys.remove(i).len() implies keys.remove(i)[j] != owner by {
        if j < i {
            assert(keys.remove(i)[j] == keys[j]);
        } else {
            assert(keys.remove(i)[j] == keys[j + 1]);
        }
    }
    lemma_first_index_absent(keys.remove(i), owner);
}

impl StablecoinState {
    /// The supply and the collateral of the stablecoin are what its ledger adds
    /// up to.
    pub open spec fn is_balanced(&self) -> bool {
        &&& self.total_supply == total_mint(self.user_shares@)
        &&& self.total_collateral == total_bond(self.user_shares@)
    }

    /// No depositor has two entries, and the ledger is within its bound.
    pub open spec fn ledger_is_sound(&self) -> bool {
        &&& all_distinct(share_owners(self.user_shares@))
        &&& self.user_shares@.len() <= MAX_USER_SHARES
    }

    /// Whether `owner` has an entry in the ledger.
    pub open spec fn holds_position(&self, owner: Address) -> bool {
        first_index(share_owners(self.user_shares@), owner).is_some()
    }

    /// The first entry of `owner` in the ledger. It means nothing where the
    /// owner has no entry.
    pub open spec fn position_of(&self, owner: Address) -> UserShare {
        self.user_shares@[first_index(share_owners(self.user_shares@), owner).unwrap()]
    }

    /// The ledger that a credit leaves, or why the credit is refused: by the
    /// ledger, or because an aggregate would overflow.
    pub open spec fn credit_outcome(
        &self,
        owner: Address,
        bond_amount: u64,
        mint_amount: u64,
        now: i64,
    ) -> Result<Seq<UserShare>, StablecoinError> {
        match credited(self.user_shares@, owner, bond_amount, mint_amount, now) {
            Err(e) => Err(e),
            Ok(shares) => if self.total_supply + mint_amount > u64::MAX || self.total_collateral
                + bond_amount > u64::MAX {
                Err(StablecoinError::MathOverflow)
            } else {
                Ok(shares)
            },
        }
    }

    /// The ledger that a debit leaves, or why the debit is refused: by the
    /// ledger, or because an aggregate would fall below zero.
    pub open spec fn debit_outcome(
        &self,
        owner: Address,
        bond_amount: u64,
        mint_amount: u64,
        now: i64,
    ) -> Result<Seq<UserShare>, StablecoinError> {
        match debited(self.user_shares@, owner, bond_amount, mint_amount, now) {
            Err(e) => Err(e),
            Ok(shares) => if self.total_supply < mint_amount || self.total_collateral
                < bond_amount {
                Err(StablecoinError::MathOverflow)
            } else {
                Ok(shares)
            },
        }
    }

    /// This record is `before` with a new ledger, new aggregates and a new time
    /// of last change, and nothing else changed.
    pub open spec fn is_ledger_change_of(
        &self,
        before: StablecoinState,
        shares: Seq<UserShare>,
        total_supply: int,
        total_collateral: int,
        now: i64,
    ) -> bool {
        &&& self.user_shares@ == shares
        &&& self.total_supply == total_supply
        &&& self.total_collateral == total_collateral
        &&& *self == (StablecoinState {
            user_shares: self.user_shares,
            total_supply: self.total_supply,
            total_collateral: self.total_collateral,
            last_updated: now,
            ..before
        })
    }

    /// The position of the first entry of `owner` in the ledger.
    pub fn find_share(&self, owner: &Address) -> (r: Option<usize>)
        ensures
            r.is_some() == self.holds_position(*owner),
            r matches Some(i) ==> i < self.user_shares@.len() && first_index(
                share_owners(self.user_shares@),
                *owner,
            ) == Some(i as int),
    {
        let mut i: usize = 0;
        while i < self.user_shares.len()
            invariant
                0 <= i <= self.user_shares.len(),
                forall|j: int| 0 <= j < i ==> self.user_shares@[j].owner != *owner,
            decreases self.user_shares.len() - i,
        {
            if self.user_shares[i].owner == *owner {
                proof {
                    lemma_first_index_found(share_owners(self.user_shares@), *owner, i as int);
                }
                return Some(i);
            }
            i += 1;
        }
        proof {
            lemma_first_index_absent(share_owners(self.user_shares@), *owner);
        }
        None
    }

    /// Whether `owner` has an entry in the ledger.
    pub fn has_position(&self, owner: &Address) -> (r: bool)
        ensures
            r == self.holds_position(*owner),
    {
        self.find_share(owner).is_some()
    }

    /// Whether a credit would be accepted, without making it.
    pub fn check_credit(&self, owner: &Address, bond_amount: u64, mint_amount: u64, now: i64) -> (r:
        Result<(), StablecoinError>)
        ensures
            match self.credit_outcome(*owner, bond_amount, mint_amount, now) {
                Err(e) => r == Err::<(), StablecoinError>(e),
                Ok(_) => r.is_ok(),
            },
    {
        match self.find_share(owner) {
            Some(i) => {
                let current: UserShare = self.user_shares[i];
                if current.bond_amount.checked_add(bond_amount).is_none() {
                    return Err(StablecoinError::MathOverflow);
                }
                if current.mint_amount.checked_add(mint_amount).is_none() {
                    return Err(StablecoinError::MathOverflow);
                }
            },
            None => {
                if self.user_shares.len() >= MAX_USER_SHARES {
                    return Err(StablecoinError::TooManyUsers);
                }
            },
        }
        if self.total_supply.checked_add(mint_amount).is_none() {
            return Err(StablecoinError::MathOverflow);
        }
        if self.total_collateral.checked_add(bond_amount).is_none() {
            return Err(StablecoinError::MathOverflow);
        }
        Ok(())
    }

    /// Whether a debit would be accepted, without making it.
    pub fn check_debit(&self, owner: &Address, bond_amount: u64, mint_amount: u64, now: i64) -> (r:
        Result<(), StablecoinError>)
        ensures
            match self.debit_outcome(*owner, bond_amount, mint_amount, now) {
                Err(e) => r == Err::<(), StablecoinError>(e),
                Ok(_) => r.is_ok(),
            },
    {
        let i: usize = match self.find_share(owner) {
            Some(i) => i,
            None => { return Err(StablecoinError::UserShareNotFound); },
        };
        let current: UserShare = self.user_shares[i];
        if current.bond_amount < bond_amount || current.mint_amount < mint_amount {
            return Err(StablecoinError::InsufficientUserShare);
        }
        if self.total_supply < mint_amount || self.total_collateral < bond_amount {
            return Err(StablecoinError::MathOverflow);
        }
        Ok(())
    }

    /// Records that `owner` deposited `bond_amount` of collateral and was issued
    /// `mint_amount` of supply at time `now`: in the ledger and in the
    /// aggregates, or in neither.
    pub fn credit(&mut self, owner: Address, bond_amount: u64, mint_amount: u64, now: i64) -> (r:
        Result<(), StablecoinError>)
        ensures
            match old(self).credit_outcome(owner, bond_amount, mint_amount, now) {
                Err(e) => r == Err::<(), StablecoinError>(e) && *final(self) == *old(self),
                Ok(shares) => r.is_ok() && final(self).is_ledger_change_of(
                    *old(self),
                    shares,
                    old(self).total_supply + mint_amount,
                    old(self).total_collateral + bond_amount,
                    now,
                ),
            },
            old(self).is_balanced() ==> final(self).is_balanced(),
            old(self).ledger_is_sound() ==> final(self).ledger_is_sound(),
            r.is_ok() ==> final(self).holds_position(owner),
    {
        let found = self.find_share(&owner);
        let share: UserShare = match found {
            Some(i) => {
                let current: UserShare = self.user_shares[i];
                let bond_total: u64 = match current.bond_amount.checked_add(bond_amount) {
                    Some(v) => v,
                    None => { return Err(StablecoinError::MathOverflow); },
                };
                let mint_total: u64 = match current.mint_amount.checked_add(mint_amount) {
                    Some(v) => v,
                    None => { return Err(StablecoinError::MathOverflow); },
                };
                UserShare {
                    owner,
                    bond_amount: bond_total,
                    mint_amount: mint_total,
                    timestamp: now,
                }
            },
            None => {
                if self.user_shares.len() >= MAX_USER_SHARES {
                    return Err(StablecoinError::TooManyUsers);
                }
                UserShare { owner, bond_amount, mint_amount, timestamp: now }
            },
        };
        let total_supply: u64 = match self.total_supply.checked_add(mint_amount) {
            Some(v) => v,
            None => { return Err(StablecoinError::MathOverflow); },
        };
        let total_collateral: u64 = match self.total_collateral.checked_add(bond_amount) {
            Some(v) => v,
            None => { return Err(StablecoinError::MathOverflow); },
        };
        proof {
            lemma_credit_keeps_ledger(old(self).user_shares@, owner, bond_amount, mint_amount, now);
        }
        match found {
            Some(i) => {
                self.user_shares[i] = share;
            },
            None => {
                self.user_shares.push(share);
            },
        }
        self.total_supply = total_supply;
        self.total_collateral = total_collateral;
        self.last_updated = now;
        Ok(())
    }

    /// Records that `owner` was returned `bond_amount` of collateral for
    /// `mint_amount` of supply at time `now`: in the ledger and in the
    /// aggregates, or in neither. An entry with nothing left is removed.
    pub fn debit(&mut self, owner: Address, bond_amount: u64, mint_amount: u64, now: i64) -> (r:
        Result<(), StablecoinError>)
        ensures
            match old(self).debit_outcome(owner, bond_amount, mint_amount, now) {
                Err(e) => r == Err::<(), StablecoinError>(e) && *final(self) == *old(self),
                Ok(shares) => r.is_ok() && final(self).is_ledger_change_of(
                    *old(self),
                    shares,
                    old(self).total_supply - mint_amount,
                    old(self).total_collateral - bond_amount,
                    now,
                ),
            },
            old(self).is_balanced() ==> final(self).is_balanced(),
            old(self).ledger_is_sound() ==> final(self).ledger_is_sound(),
            r.is_ok() && old(self).ledger_is_sound() && old(self).position_of(owner).bond_amount
                == bond_amount && old(self).position_of(owner).mint_amount == mint_amount
                ==> !final(self).holds_position(owner),
    {
        proof {
            if debited(old(self).user_shares@, owner, bond_amount, mint_amount, now).is_ok()
                && old(self).ledger_is_sound() && old(self).position_of(owner).bond_amount
                == bond_amount && old(self).position_of(owner).mint_amount == mint_amount {
                lemma_emptied_entry_is_removed(
                    old(self).user_shares@,
                    owner,
                    bond_amount,
                    mint_amount,
                    now,
                );
            }
        }
        let found = self.find_share(&owner);
        let i: usize = match found {
            Some(i) => i,
            None => { return Err(StablecoinError::UserShareNotFound); },
        };
        let current: UserShare = self.user_shares[i];
        if current.bond_amount < bond_amount || current.mint_amount < mint_amount {
            return Err(StablecoinError::InsufficientUserShare);
        }
        let bond_left: u64 = current.bond_amount - bond_amount;
        let mint_left: u64 = current.mint_amount - mint_amount;
        let total_supply: u64 = match self.total_supply.checked_sub(mint_amount) {
            Some(v) => v,
            None => { return Err(StablecoinError::MathOverflow); },
        };
        let total_collateral: u64 = match self.total_collateral.checked_sub(bond_amount) {
            Some(v) => v,
            None => { return Err(StablecoinError::MathOverflow); },
        };
        proof {
            lemma_debit_keeps_ledger(old(self).user_shares@, owner, bond_amount, mint_amount, now);
        }
        if bond_left == 0 && mint_left == 0 {
            self.user_shares.remove(i);
        } else {
            self.user_shares[i] = UserShare {
                owner,
                bond_amount: bond_left,
                mint_amount: mint_left,
                timestamp: now,
            };
        }
        self.total_supply = total_supply;
        self.total_collateral = total_collateral;
        self.last_updated = now;
        Ok(())
    }
}

} // verus!
