//! What each operation is handed: the records it reads or changes and the
//! identities of the accounts involved. The host fills one in, calls the
//! operation, and stores the records back.

use vstd::prelude::*;
use anchor_lang::prelude::Pubkey;
use crate::state::{GovernanceProposal, MemberProfile, ProgramState, StudyGroup};

verus! {

/// For `initialize_program`.
#[derive(Clone, Debug, PartialEq, Eq)]
pub struct Initialize {
    pub program_state: ProgramState,
    pub admin: Pubkey,
}

/// For `create_study_group`. `study_group` is the record to fill.
#[derive(Clone, Debug, PartialEq, Eq)]
pub struct CreateStudyGroup {
    pub study_group: StudyGroup,
    pub program_state: ProgramState,
    pub creator: Pubkey,
}

/// For `join_group`. `member_profile` is the record to fill; the stake
/// moves from `member_token_account` to `group_token_account`.
#[derive(Clone, Debug, PartialEq, Eq)]
pub struct JoinGroup {
    pub study_group: StudyGroup,
    pub member_profile: MemberProfile,
    pub member: Pubkey,
    pub member_token_account: Pubkey,
    pub group_token_account: Pubkey,
}

/// For `daily_check_in`.
#[derive(Clone, Copy, Debug, PartialEq, Eq)]
pub struct DailyCheckIn {
    pub member_profile: MemberProfile,
    pub member: Pubkey,
}

/// For `tip_member`. The tip moves from `sender_token_account` to
/// `recipient_token_account`.
#[derive(Clone, Copy, Debug, PartialEq, Eq)]
pub struct TipMember {
    pub recipient_profile: MemberProfile,
    pub sender: Pubkey,
    pub sender_token_account: Pubkey,
    pub recipient_token_account: Pubkey,
}

/// For `create_proposal`. `proposal` is the record to fill; `study_group`
/// counts the proposal.
#[derive(Clone, Debug, PartialEq, Eq)]
pub struct CreateProposal {
    pub proposal: GovernanceProposal,
    pub study_group: StudyGroup,
    pub proposer: Pubkey,
}

/// For `vote_on_proposal`.
#[derive(Clone, Debug, PartialEq, Eq)]
pub struct VoteOnProposal {
    pub proposal: GovernanceProposal,
    pub member_profile: MemberProfile,
    pub voter: Pubkey,
}

/// For `execute_proposal`.
#[derive(Clone, Debug, PartialEq, Eq)]
pub struct ExecuteProposal {
    pub proposal: GovernanceProposal,
}

/// For `claim_rewards`. The share moves from `group_token_account` to
/// `member_token_account` on the word of `group_authority`.
#[derive(Clone, Debug, PartialEq, Eq)]
pub struct ClaimRewards {
    pub study_group: StudyGroup,
    pub member_profile: MemberProfile,
    pub member: Pubkey,
    pub member_token_account: Pubkey,
    pub group_token_account: Pubkey,
    pub group_authority: Pubkey,
}

/// For `leave_group`. The refund moves from `group_token_account` to
/// `member_token_account` on the word of `group_authority`.
#[derive(Clone, Debug, PartialEq, Eq)]
pub struct LeaveGroup {
    pub study_group: StudyGroup,
    pub member_profile: MemberProfile,
    pub member: Pubkey,
    pub member_token_account: Pubkey,
    pub group_token_account: Pubkey,
    pub group_authority: Pubkey,
}

} // verus!
