//! The boundary with the transfer rail.
//!
//! The library never moves funds. An operation that needs a transfer comes
//! in two steps: first the host asks which transfer the operation needs,
//! which also checks every rule; then it performs the transfer and reports
//! the rail's answer to the operation itself, which commits or aborts.

use vstd::prelude::*;
use anchor_lang::prelude::Pubkey;

verus! {

/// A transfer to ask of the rail: move `amount` out of `from` into `to`,
/// authorised by `authority`.
#[derive(Clone, Copy, Debug, PartialEq, Eq)]
pub struct TransferRequest {
    pub from: Pubkey,
    pub to: Pubkey,
    pub authority: Pubkey,
    pub amount: u64,
}

/// The rail's answer to a transfer request. `Moved` means the whole amount
/// moved; `Failed` means nothing did.
#[derive(Clone, Copy, Debug, PartialEq, Eq)]
pub enum RailOutcome {
    Moved,
    Failed,
}

} // verus!
