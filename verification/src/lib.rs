//! A ledger of kitties: uniquely numbered creatures with an owner each, bred
//! from one another, every one of them backed by a stake that its owner has
//! reserved.
//!
//! `state` describes the ledger as a mathematical value and every dispatch as
//! a function on it; `pallet` holds the ledger that runs, proved to follow
//! that description; `laws` states what follows for every ledger. `dna`,
//! `inventory`, `balances` and `stake` are the parts the ledger is made of.
//! `erc20` is a small contract of its own.

pub mod balances;
pub mod dna;
pub mod erc20;
pub mod error;
pub mod inventory;
pub mod laws;
pub mod pallet;
pub mod stake;
pub mod state;

pub use crate::balances::{AccountData, Balance, Balances};
pub use crate::dna::{AccountId, Entropy, Kitty, KittyDna};
pub use crate::erc20::Erc20;
pub use crate::error::{Error, Event};
pub use crate::inventory::{KittyIndex, OwnedKitties, MAX_OWNER_KITTY};
pub use crate::pallet::Pallet;
