//! The records the operations work on, each with its mathematical model.
//!
//! A record holds machine integers; its model, reached with `@`, holds the
//! same values as unbounded numbers and its texts as character sequences.
//! The operations' contracts are stated over the models.

use vstd::prelude::*;
use anchor_lang::prelude::Pubkey;

verus! {

/// Number of bytes a text takes in UTF-8, which is how lengths are limited.
pub open spec fn utf8_len(text: Seq<char>) -> nat {
    vstd::utf8::encode_utf8(text).len()
}

/// The length of `text` in bytes.
pub fn byte_len(text: &str) -> (len: usize)
    ensures
        len == utf8_len(text@),
{
    text.as_bytes().len()
}

/// What a proposal asks the group to change.
#[derive(Clone, Copy, Debug, PartialEq, Eq)]
pub enum ProposalType {
    ChangeTopic,
    UpdateSchedule,
    AddResource,
    ModifyStake,
}

/// Where a proposal stands. `Executed` and `Rejected` are final.
#[derive(Clone, Copy, Debug, PartialEq, Eq)]
pub enum ExecutionStatus {
    Pending,
    Executed,
    Rejected,
}

/// What a tip thanks its recipient for.
#[derive(Clone, Copy, Debug, PartialEq, Eq)]
pub enum TipCategory {
    Helpful,
    Knowledgeable,
    Motivational,
    Collaborative,
}

/// The registry's counters, one per deployment.
#[derive(Clone, Debug, PartialEq, Eq)]
pub struct ProgramState {
    pub admin: Pubkey,
    pub total_groups: u64,
    pub total_members: u64,
    pub is_initialized: bool,
}

/// Model of [`ProgramState`].
pub struct ProgramStateModel {
    pub admin: Pubkey,
    pub total_groups: nat,
    pub total_members: nat,
    pub is_initialized: bool,
}

impl ProgramStateModel {
    /// Whether every counter fits the width of its field in the record.
    pub open spec fn representable(self) -> bool {
        self.total_groups <= u64::MAX && self.total_members <= u64::MAX
    }
}

impl View for ProgramState {
    type V = ProgramStateModel;

    open spec fn view(&self) -> ProgramStateModel {
        ProgramStateModel {
            admin: self.admin,
            total_groups: self.total_groups as nat,
            total_members: self.total_members as nat,
            is_initialized: self.is_initialized,
        }
    }
}

/// A study group: its terms, its head count and its pool of stakes.
#[derive(Clone, Debug, PartialEq, Eq)]
pub struct StudyGroup {
    pub group_id: u64,
    pub creator: Pubkey,
    pub name: String,
    pub subject: String,
    pub description: String,
    pub stake_requirement: u64,
    pub max_members: u8,
    pub current_members: u8,
    pub reward_pool: u64,
    pub created_at: i64,
    pub duration_days: u16,
    pub is_active: bool,
    pub penalty_rate: u8,
    /// How many proposals have been opened in this group so far.
    pub proposal_count: u64,
}

/// Model of [`StudyGroup`].
pub struct StudyGroupModel {
    pub group_id: nat,
    pub creator: Pubkey,
    pub name: Seq<char>,
    pub subject: Seq<char>,
    pub description: Seq<char>,
    pub stake_requirement: nat,
    pub max_members: nat,
    pub current_members: nat,
    pub reward_pool: nat,
    pub created_at: int,
    pub duration_days: nat,
    pub is_active: bool,
    pub penalty_rate: nat,
    pub proposal_count: nat,
}

impl StudyGroupModel {
    /// The group's invariant: it never holds more members than it has
    /// places for.
    pub open spec fn wf(self) -> bool {
        self.current_members <= self.max_members
    }

    /// Whether every number fits the width of its field in the record.
    pub open spec fn representable(self) -> bool {
        &&& self.group_id <= u64::MAX
        &&& self.stake_requirement <= u64::MAX
        &&& self.max_members <= u8::MAX
        &&& self.current_members <= u8::MAX
        &&& self.reward_pool <= u64::MAX
        &&& i64::MIN <= self.created_at <= i64::MAX
        &&& self.duration_days <= u16::MAX
        &&& self.penalty_rate <= u8::MAX
        &&& self.proposal_count <= u64::MAX
    }
}

impl View for StudyGroup {
    type V = StudyGroupModel;

    open spec fn view(&self) -> StudyGroupModel {
        StudyGroupModel {
            group_id: self.group_id as nat,
            creator: self.creator,
            name: self.name@,
            subject: self.subject@,
            description: self.description@,
            stake_requirement: self.stake_requirement as nat,
            max_members: self.max_members as nat,
            current_members: self.current_members as nat,
            reward_pool: self.reward_pool as nat,
            created_at: self.created_at as int,
            duration_days: self.duration_days as nat,
            is_active: self.is_active,
            penalty_rate: self.penalty_rate as nat,
            proposal_count: self.proposal_count as nat,
        }
    }
}

/// One member's standing in one group, from joining to leaving.
#[derive(Clone, Copy, Debug, PartialEq, Eq)]
pub struct MemberProfile {
    pub member: Pubkey,
    pub group_id: u64,
    pub stake_amount: u64,
    pub check_in_count: u32,
    pub current_streak: u32,
    pub total_tips_received: u64,
    pub participation_score: u32,
    pub join_date: i64,
    pub is_active: bool,
    pub last_check_in: i64,
}

/// Model of [`MemberProfile`].
pub struct MemberProfileModel {
    pub member: Pubkey,
    pub group_id: nat,
    pub stake_amount: nat,
    pub check_in_count: nat,
    pub current_streak: nat,
    pub total_tips_received: nat,
    pub participation_score: nat,
    pub join_date: int,
    pub is_active: bool,
    pub last_check_in: int,
}

impl MemberProfileModel {
    /// Whether every number fits the width of its field in the record.
    pub open spec fn representable(self) -> bool {
        &&& self.group_id <= u64::MAX
        &&& self.stake_amount <= u64::MAX
        &&& self.check_in_count <= u32::MAX
        &&& self.current_streak <= u32::MAX
        &&& self.total_tips_received <= u64::MAX
        &&& self.participation_score <= u32::MAX
        &&& i64::MIN <= self.join_date <= i64::MAX
        &&& i64::MIN <= self.last_check_in <= i64::MAX
    }
}

impl View for MemberProfile {
    type V = MemberProfileModel;

    open spec fn view(&self) -> MemberProfileModel {
        MemberProfileModel {
            member: self.member,
            group_id: self.group_id as nat,
            stake_amount: self.stake_amount as nat,
            check_in_count: self.check_in_count as nat,
            current_streak: self.current_streak as nat,
            total_tips_received: self.total_tips_received as nat,
            participation_score: self.participation_score as nat,
            join_date: self.join_date as int,
            is_active: self.is_active,
            last_check_in: self.last_check_in as int,
        }
    }
}

/// A proposal put to a group's members.
#[derive(Clone, Debug, PartialEq, Eq)]
pub struct GovernanceProposal {
    pub proposal_id: u64,
    pub proposer: Pubkey,
    pub group_id: u64,
    pub proposal_type: ProposalType,
    pub description: String,
    pub votes_for: u64,
    pub votes_against: u64,
    pub voting_deadline: i64,
    pub execution_status: ExecutionStatus,
    pub required_threshold: u64,
}

/// Model of [`GovernanceProposal`].
pub struct GovernanceProposalModel {
    pub proposal_id: nat,
    pub proposer: Pubkey,
    pub group_id: nat,
    pub proposal_type: ProposalType,
    pub description: Seq<char>,
    pub votes_for: nat,
    pub votes_against: nat,
    pub voting_deadline: int,
    pub execution_status: ExecutionStatus,
    pub required_threshold: nat,
}

impl GovernanceProposalModel {
    /// Whether every number fits the width of its field in the record.
    pub open spec fn representable(self) -> bool {
        &&& self.proposal_id <= u64::MAX
        &&& self.group_id <= u64::MAX
        &&& self.votes_for <= u64::MAX
        &&& self.votes_against <= u64::MAX
        &&& i64::MIN <= self.voting_deadline <= i64::MAX
        &&& self.required_threshold <= u64::MAX
    }
}

impl View for GovernanceProposal {
    type V = GovernanceProposalModel;

    open spec fn view(&self) -> GovernanceProposalModel {
        GovernanceProposalModel {
            proposal_id: self.proposal_id as nat,
            proposer: self.proposer,
            group_id: self.group_id as nat,
            proposal_type: self.proposal_type,
            description: self.description@,
            votes_for: self.votes_for as nat,
            votes_against: self.votes_against as nat,
            voting_deadline: self.voting_deadline as int,
            execution_status: self.execution_status,
            required_threshold: self.required_threshold as nat,
        }
    }
}

} // verus!
