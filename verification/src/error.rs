//! Why a dispatch was refused, and what a successful one reports.

use vstd::prelude::*;
use crate::dna::{AccountId, Kitty};
use crate::inventory::KittyIndex;

verus! {

/// Why a dispatch was refused. A refused dispatch leaves the ledger as it was.
#[derive(Clone, Copy, Debug, PartialEq, Eq, Hash)]
pub enum Error {
    /// No kitty has this number.
    InvalidKittyId,
    /// Every kitty number has been given out.
    KittyIdOverflow,
    /// A kitty cannot be bred with itself.
    SameKittyId,
    /// The caller does not own the kitty.
    NotOwner,
    /// The account that would receive the kitty already holds as many as one
    /// account may.
    OverflowMaxOwnerKitty,
    /// The free balance of the account that would receive the kitty does not
    /// cover the stake.
    InsufficientStakeAmount,
}

/// What a successful dispatch reports.
#[derive(Clone, Copy, Debug, PartialEq, Eq)]
pub enum Event {
    /// `who` created `kitty` under the number `kitty_id`.
    Created { who: AccountId, kitty_id: KittyIndex, kitty: Kitty },
    /// `who` bred `kitty` under the number `kitty_id`.
    Bred { who: AccountId, kitty_id: KittyIndex, kitty: Kitty },
    /// `from` handed the kitty `kitty_id` to `to`.
    Transferred { from: AccountId, to: AccountId, kitty_id: KittyIndex },
}

} // verus!
