//! The record each operation hands back on success, for the host to
//! publish.

use vstd::prelude::*;
use anchor_lang::prelude::Pubkey;
use crate::state::{ProposalType, TipCategory};

verus! {

#[derive(Clone, Debug, PartialEq, Eq)]
pub struct StudyGroupCreated {
    pub group_id: u64,
    pub creator: Pubkey,
    pub name: String,
    pub stake_requirement: u64,
}

#[derive(Clone, Copy, Debug, PartialEq, Eq)]
pub struct MemberJoined {
    pub group_id: u64,
    pub member: Pubkey,
    pub stake_amount: u64,
}

#[derive(Clone, Copy, Debug, PartialEq, Eq)]
pub struct DailyCheckInRecorded {
    pub member: Pubkey,
    pub group_id: u64,
    pub streak: u32,
}

#[derive(Clone, Copy, Debug, PartialEq, Eq)]
pub struct MemberTipped {
    pub sender: Pubkey,
    pub recipient: Pubkey,
    pub amount: u64,
    pub category: TipCategory,
}

#[derive(Clone, Copy, Debug, PartialEq, Eq)]
pub struct ProposalCreated {
    pub proposal_id: u64,
    pub proposer: Pubkey,
    pub group_id: u64,
    pub proposal_type: ProposalType,
}

#[derive(Clone, Copy, Debug, PartialEq, Eq)]
pub struct VoteCast {
    pub proposal_id: u64,
    pub voter: Pubkey,
    pub vote_choice: bool,
}

/// Published when a proposal is resolved, whether it was carried or not.
#[derive(Clone, Copy, Debug, PartialEq, Eq)]
pub struct ProposalExecuted {
    pub proposal_id: u64,
    pub votes_for: u64,
    pub votes_against: u64,
}

#[derive(Clone, Copy, Debug, PartialEq, Eq)]
pub struct RewardsClaimed {
    pub member: Pubkey,
    pub group_id: u64,
    pub amount: u64,
}

#[derive(Clone, Copy, Debug, PartialEq, Eq)]
pub struct MemberLeft {
    pub member: Pubkey,
    pub group_id: u64,
    pub refund_amount: u64,
}

} // verus!
