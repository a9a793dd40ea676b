//! Proposals: creation, voting while the poll is open, and the one-time
//! resolution once it has closed.

use vstd::prelude::*;
use anchor_lang::prelude::Pubkey;
use crate::contexts::{CreateProposal, ExecuteProposal, VoteOnProposal};
use crate::errors::StudyGroupError;
use crate::events::{ProposalCreated, ProposalExecuted, VoteCast};
use crate::state::{
    byte_len, utf8_len, ExecutionStatus, GovernanceProposal, GovernanceProposalModel,
    MemberProfile, MemberProfileModel, ProposalType, StudyGroupModel,
};

verus! {

/// Longest proposal description, in bytes.
pub const MAX_PROPOSAL_DESCRIPTION_LEN: usize = 1000;

/// How long a poll stays open, in seconds: seven days.
pub const VOTING_PERIOD: i64 = 7 * 24 * 60 * 60;

/// Percentage of the members whose votes in favour a proposal needs.
pub const THRESHOLD_PERCENT: u64 = 60;

/// Proposal identifiers of a group start at this multiple of its own
/// identifier.
pub const PROPOSAL_ID_STRIDE: u64 = 1000;

// ---------------------------------------------------------------------
// Creation
// ---------------------------------------------------------------------

/// Votes in favour that a proposal needs in a group of `members`:
/// [`THRESHOLD_PERCENT`] percent of them, rounded down.
pub open spec fn threshold_for(members: nat) -> nat {
    members * (THRESHOLD_PERCENT as nat) / 100
}

/// The rule, if any, that refuses a proposal described by `description`.
pub open spec fn proposal_refusal(description: Seq<char>) -> Option<StudyGroupError> {
    if utf8_len(description) > MAX_PROPOSAL_DESCRIPTION_LEN {
        Some(StudyGroupError::DescriptionTooLong)
    } else {
        None
    }
}

/// The identifier of the proposal opened in group `group_id` after
/// `opened` earlier ones: the group's starting point plus that count.
///
/// Design decision, to be confirmed with whoever owns the product: the
/// offset is a count kept per group, raised by every proposal opened, so
/// that no two proposals of one group share an identifier. The first
/// proposal of a group gets the group's starting point itself. From the
/// [`PROPOSAL_ID_STRIDE`]-th proposal of a group on, its identifiers run
/// into the range of the next group: an identifier names a proposal only
/// together with its group.
pub open spec fn proposal_id_for(group_id: nat, opened: nat) -> nat {
    group_id * (PROPOSAL_ID_STRIDE as nat) + opened
}

/// The proposal as created at `now` for `group`.
pub open spec fn proposal_on_creation(
    group: StudyGroupModel,
    proposer: Pubkey,
    proposal_type: ProposalType,
    description: Seq<char>,
    now: int,
) -> GovernanceProposalModel {
    GovernanceProposalModel {
        proposal_id: proposal_id_for(group.group_id, group.proposal_count),
        proposer,
        group_id: group.group_id,
        proposal_type,
        description,
        votes_for: 0,
        votes_against: 0,
        voting_deadline: now + VOTING_PERIOD,
        execution_status: ExecutionStatus::Pending,
        required_threshold: threshold_for(group.current_members),
    }
}

/// The group once one more proposal has been opened in it.
pub open spec fn group_after_proposal(group: StudyGroupModel) -> StudyGroupModel {
    StudyGroupModel { proposal_count: group.proposal_count + 1, ..group }
}

/// Whether the new proposal can be written down: where it is opened, its
/// identifier, its deadline and the group's new count fit their fields.
pub open spec fn proposal_fits(group: StudyGroupModel, description: Seq<char>, now: int) -> bool {
    proposal_refusal(description) is None ==> {
        &&& proposal_id_for(group.group_id, group.proposal_count) <= u64::MAX
        &&& group.proposal_count + 1 <= u64::MAX
        &&& now + VOTING_PERIOD <= i64::MAX
    }
}

/// The rule, if any, that refuses a proposal described by `description`.
fn proposal_rule(description: &str) -> (rule: Option<StudyGroupError>)
    ensures
        rule == proposal_refusal(description@),
{
    if byte_len(description) > MAX_PROPOSAL_DESCRIPTION_LEN {
        Some(StudyGroupError::DescriptionTooLong)
    } else {
        None
    }
}

/// Decides [`proposal_fits`], the condition under which
/// [`create_proposal`] may be called.
pub fn create_proposal_fits(ctx: &CreateProposal, description: &str, now: i64) -> (fits: bool)
    ensures
        fits == proposal_fits(ctx.study_group@, description@, now as int),
{
    if let Some(_) = proposal_rule(description) {
        return true;
    }
    let block: u128 = (ctx.study_group.group_id as u128) * (PROPOSAL_ID_STRIDE as u128);
    block + (ctx.study_group.proposal_count as u128) <= u64::MAX as u128
        && ctx.study_group.proposal_count < u64::MAX && now <= i64::MAX - VOTING_PERIOD
}

/// Opens a proposal in `ctx.study_group` at time `now`.
///
/// It is opened exactly when the description takes at most
/// [`MAX_PROPOSAL_DESCRIPTION_LEN`] bytes. Then the record is filled,
/// whatever it held: no votes yet, pending, the poll closing
/// [`VOTING_PERIOD`] after `now`, and the threshold fixed from the head
/// count at this moment. Its identifier is [`proposal_id_for`] the group's
/// count of proposals, and the group counts one more, so the next proposal
/// of the group gets another identifier. Otherwise nothing changes. The
/// identifier, the count and the deadline must fit their fields, which
/// [`create_proposal_fits`] tests.
pub fn create_proposal(
    ctx: &mut CreateProposal,
    proposal_type: ProposalType,
    description: String,
    now: i64,
) -> (res: Result<ProposalCreated, StudyGroupError>)
    requires
        proposal_fits(old(ctx).study_group@, description@, now as int),
    ensures
        match res {
            Ok(event) => {
                &&& proposal_refusal(description@) is None
                &&& final(ctx).proposal@ == proposal_on_creation(
                    old(ctx).study_group@,
                    old(ctx).proposer,
                    proposal_type,
                    description@,
                    now as int,
                )
                &&& final(ctx).study_group@ == group_after_proposal(old(ctx).study_group@)
                &&& final(ctx).study_group@.proposal_count > old(ctx).study_group@.proposal_count
                &&& final(ctx).proposer == old(ctx).proposer
                &&& event == (ProposalCreated {
                    proposal_id: final(ctx).proposal.proposal_id,
                    proposer: old(ctx).proposer,
                    group_id: old(ctx).study_group.group_id,
                    proposal_type,
                })
            },
            Err(e) => {
                &&& proposal_refusal(description@) == Some(e)
                &&& *final(ctx) == *old(ctx)
            },
        },
{
    if let Some(rule) = proposal_rule(description.as_str()) {
        return Err(rule);
    }
    let group_id: u64 = ctx.study_group.group_id;
    let proposal_id: u64 = group_id * PROPOSAL_ID_STRIDE + ctx.study_group.proposal_count;
    let members: u64 = ctx.study_group.current_members as u64;
    ctx.proposal.proposal_id = proposal_id;
    ctx.proposal.proposer = ctx.proposer;
    ctx.proposal.group_id = group_id;
    ctx.proposal.proposal_type = proposal_type;
    ctx.proposal.description = description;
    ctx.proposal.votes_for = 0;
    ctx.proposal.votes_against = 0;
    ctx.proposal.voting_deadline = now + VOTING_PERIOD;
    ctx.proposal.execution_status = ExecutionStatus::Pending;
    ctx.proposal.required_threshold = members * THRESHOLD_PERCENT / 100;
    ctx.study_group.proposal_count = ctx.study_group.proposal_count + 1;
    Ok(ProposalCreated { proposal_id, proposer: ctx.proposer, group_id, proposal_type })
}

// ---------------------------------------------------------------------
// Voting
// ---------------------------------------------------------------------

/// The rule, if any, that refuses a vote by `voter` on `proposal` at `now`.
pub open spec fn vote_refusal(
    proposal: GovernanceProposalModel,
    voter: MemberProfileModel,
    now: int,
) -> Option<StudyGroupError> {
    if !voter.is_active {
        Some(StudyGroupError::MemberNotActive)
    } else if now >= proposal.voting_deadline {
        Some(StudyGroupError::VotingPeriodEnded)
    } else if proposal.execution_status != ExecutionStatus::Pending {
        Some(StudyGroupError::ProposalAlreadyExecuted)
    } else {
        None
    }
}

/// The proposal after one more vote, in favour or against.
pub open spec fn proposal_after_vote(proposal: GovernanceProposalModel, in_favour: bool)
    -> GovernanceProposalModel {
    if in_favour {
        GovernanceProposalModel { votes_for: proposal.votes_for + 1, ..proposal }
    } else {
        GovernanceProposalModel { votes_against: proposal.votes_against + 1, ..proposal }
    }
}

/// Whether the tally can take the vote: where it counts, the chosen side
/// has room for it.
pub open spec fn vote_fits(
    proposal: GovernanceProposalModel,
    voter: MemberProfileModel,
    in_favour: bool,
    now: int,
) -> bool {
    vote_refusal(proposal, voter, now) is None ==> proposal_after_vote(
        proposal,
        in_favour,
    ).representable()
}

/// The rule, if any, that refuses a vote by `voter` on `proposal` at `now`.
fn vote_rule(proposal: &GovernanceProposal, voter: &MemberProfile, now: i64) -> (rule: Option<
    StudyGroupError,
>)
    ensures
        rule == vote_refusal(proposal@, voter@, now as int),
{
    if !voter.is_active {
        return Some(StudyGroupError::MemberNotActive);
    }
    if now >= proposal.voting_deadline {
        return Some(StudyGroupError::VotingPeriodEnded);
    }
    match proposal.execution_status {
        ExecutionStatus::Pending => None,
        _ => Some(StudyGroupError::ProposalAlreadyExecuted),
    }
}

/// Decides [`vote_fits`], the condition under which [`vote_on_proposal`]
/// may be called.
pub fn vote_on_proposal_fits(ctx: &VoteOnProposal, vote_choice: bool, now: i64) -> (fits: bool)
    ensures
        fits == vote_fits(ctx.proposal@, ctx.member_profile@, vote_choice, now as int),
{
    if let Some(_) = vote_rule(&ctx.proposal, &ctx.member_profile, now) {
        return true;
    }
    if vote_choice {
        ctx.proposal.votes_for < u64::MAX
    } else {
        ctx.proposal.votes_against < u64::MAX
    }
}

/// Casts one vote at time `now`.
///
/// The vote counts exactly when the voter's profile is active, the poll is
/// still open and the proposal is pending. Then the tally on the chosen
/// side grows by one; otherwise nothing changes. Each call counts once:
/// that a member votes only once is for the caller to see to. The tally
/// must have room for the vote, which [`vote_on_proposal_fits`] tests.
pub fn vote_on_proposal(ctx: &mut VoteOnProposal, vote_choice: bool, now: i64) -> (res: Result<
    VoteCast,
    StudyGroupError,
>)
    requires
        vote_fits(old(ctx).proposal@, old(ctx).member_profile@, vote_choice, now as int),
    ensures
        match res {
            Ok(event) => {
                &&& vote_refusal(old(ctx).proposal@, old(ctx).member_profile@, now as int) is None
                &&& final(ctx).proposal@ == proposal_after_vote(old(ctx).proposal@, vote_choice)
                &&& final(ctx).member_profile == old(ctx).member_profile
                &&& final(ctx).voter == old(ctx).voter
                &&& event == (VoteCast {
                    proposal_id: old(ctx).proposal.proposal_id,
                    voter: old(ctx).voter,
                    vote_choice,
                })
            },
            Err(e) => {
                &&& vote_refusal(old(ctx).proposal@, old(ctx).member_profile@, now as int) == Some(
                    e,
                )
                &&& *final(ctx) == *old(ctx)
            },
        },
{
    if let Some(rule) = vote_rule(&ctx.proposal, &ctx.member_profile, now) {
        return Err(rule);
    }
    if vote_choice {
        ctx.proposal.votes_for = ctx.proposal.votes_for + 1;
    } else {
        ctx.proposal.votes_against = ctx.proposal.votes_against + 1;
    }
    Ok(VoteCast { proposal_id: ctx.proposal.proposal_id, voter: ctx.voter, vote_choice })
}

// ---------------------------------------------------------------------
// Resolution
// ---------------------------------------------------------------------

/// The rule, if any, that refuses to resolve `proposal` at `now`.
pub open spec fn execution_refusal(proposal: GovernanceProposalModel, now: int) -> Option<
    StudyGroupError,
> {
    if now < proposal.voting_deadline {
        Some(StudyGroupError::VotingStillActive)
    } else if proposal.execution_status != ExecutionStatus::Pending {
        Some(StudyGroupError::ProposalAlreadyExecuted)
    } else {
        None
    }
}

/// Whether the tally carries the proposal: the votes in favour reach the
/// threshold and outnumber those against.
pub open spec fn carries(proposal: GovernanceProposalModel) -> bool {
    proposal.votes_for >= proposal.required_threshold && proposal.votes_for
        > proposal.votes_against
}

/// The final status the tally gives the proposal.
pub open spec fn verdict(proposal: GovernanceProposalModel) -> ExecutionStatus {
    if carries(proposal) {
        ExecutionStatus::Executed
    } else {
        ExecutionStatus::Rejected
    }
}

/// The proposal once resolved.
pub open spec fn proposal_after_execution(proposal: GovernanceProposalModel)
    -> GovernanceProposalModel {
    GovernanceProposalModel { execution_status: verdict(proposal), ..proposal }
}

/// The rule, if any, that refuses to resolve `proposal` at `now`.
fn execution_rule(proposal: &GovernanceProposal, now: i64) -> (rule: Option<StudyGroupError>)
    ensures
        rule == execution_refusal(proposal@, now as int),
{
    if now < proposal.voting_deadline {
        return Some(StudyGroupError::VotingStillActive);
    }
    match proposal.execution_status {
        ExecutionStatus::Pending => None,
        _ => Some(StudyGroupError::ProposalAlreadyExecuted),
    }
}

/// Resolves the proposal at time `now`.
///
/// It is resolved exactly when the poll has closed and the proposal is
/// still pending. Then its status becomes `Executed` if the tally carries
/// it and `Rejected` if not, and either way the event reports the final
/// tally; the status is read from the record. Otherwise nothing changes.
pub fn execute_proposal(ctx: &mut ExecuteProposal, now: i64) -> (res: Result<
    ProposalExecuted,
    StudyGroupError,
>)
    ensures
        match res {
            Ok(event) => {
                &&& execution_refusal(old(ctx).proposal@, now as int) is None
                &&& final(ctx).proposal@ == proposal_after_execution(old(ctx).proposal@)
                &&& event == (ProposalExecuted {
                    proposal_id: old(ctx).proposal.proposal_id,
                    votes_for: old(ctx).proposal.votes_for,
                    votes_against: old(ctx).proposal.votes_against,
                })
            },
            Err(e) => {
                &&& execution_refusal(old(ctx).proposal@, now as int) == Some(e)
                &&& *final(ctx) == *old(ctx)
            },
        },
{
    if let Some(rule) = execution_rule(&ctx.proposal, now) {
        return Err(rule);
    }
    if ctx.proposal.votes_for >= ctx.proposal.required_threshold && ctx.proposal.votes_for
        > ctx.proposal.votes_against {
        ctx.proposal.execution_status = ExecutionStatus::Executed;
    } else {
        ctx.proposal.execution_status = ExecutionStatus::Rejected;
    }
    Ok(
        ProposalExecuted {
            proposal_id: ctx.proposal.proposal_id,
            votes_for: ctx.proposal.votes_for,
            votes_against: ctx.proposal.votes_against,
        },
    )
}

} // verus!
