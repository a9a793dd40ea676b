//! The registry: the deployment's counters and the creation of groups.

use vstd::prelude::*;
use anchor_lang::prelude::Pubkey;
use crate::contexts::{CreateStudyGroup, Initialize};
use crate::errors::StudyGroupError;
use crate::events::StudyGroupCreated;
use crate::state::{byte_len, utf8_len, ProgramStateModel, StudyGroupModel};

verus! {

/// Longest group name, in bytes.
pub const MAX_NAME_LEN: usize = 50;

/// Longest group description, in bytes.
pub const MAX_DESCRIPTION_LEN: usize = 500;

/// Fewest places a group may offer.
pub const MIN_GROUP_SIZE: u8 = 2;

/// Most places a group may offer.
pub const MAX_GROUP_SIZE: u8 = 50;

/// Smallest stake a group may ask for.
pub const MIN_STAKE: u64 = 10_000_000;

/// Percentage of the stake that a member forfeits on leaving early.
pub const EARLY_EXIT_PENALTY_RATE: u8 = 10;

/// The counters of a deployment that `admin` has just set up.
pub open spec fn registry_on_start(admin: Pubkey) -> ProgramStateModel {
    ProgramStateModel { admin, total_groups: 0, total_members: 0, is_initialized: true }
}

/// Sets the registry up for `ctx.admin`: no groups, no members. It always
/// succeeds.
pub fn initialize_program(ctx: &mut Initialize) -> (res: Result<(), StudyGroupError>)
    ensures
        res is Ok,
        final(ctx).program_state@ == registry_on_start(old(ctx).admin),
        final(ctx).admin == old(ctx).admin,
{
    ctx.program_state.admin = ctx.admin;
    ctx.program_state.total_groups = 0;
    ctx.program_state.total_members = 0;
    ctx.program_state.is_initialized = true;
    Ok(())
}

/// The rule, if any, that refuses a group with these terms. The rules are
/// tried in this order: name, description, size, stake.
pub open spec fn creation_refusal(
    name: Seq<char>,
    description: Seq<char>,
    stake_amount: nat,
    max_members: nat,
) -> Option<StudyGroupError> {
    if utf8_len(name) > MAX_NAME_LEN {
        Some(StudyGroupError::NameTooLong)
    } else if utf8_len(description) > MAX_DESCRIPTION_LEN {
        Some(StudyGroupError::DescriptionTooLong)
    } else if max_members < MIN_GROUP_SIZE || max_members > MAX_GROUP_SIZE {
        Some(StudyGroupError::InvalidMaxMembers)
    } else if stake_amount < MIN_STAKE {
        Some(StudyGroupError::StakeTooLow)
    } else {
        None
    }
}

/// The group as created at `now` in a registry that has counted
/// `registry.total_groups` groups so far: that count is its identifier, and
/// it starts active, with no members, an empty pool and no proposals.
pub open spec fn group_on_creation(
    registry: ProgramStateModel,
    creator: Pubkey,
    name: Seq<char>,
    subject: Seq<char>,
    description: Seq<char>,
    stake_amount: nat,
    max_members: nat,
    duration_days: nat,
    now: int,
) -> StudyGroupModel {
    StudyGroupModel {
        group_id: registry.total_groups,
        creator,
        name,
        subject,
        description,
        stake_requirement: stake_amount,
        max_members,
        current_members: 0,
        reward_pool: 0,
        created_at: now,
        duration_days,
        is_active: true,
        penalty_rate: EARLY_EXIT_PENALTY_RATE as nat,
        proposal_count: 0,
    }
}

/// The registry after one more group.
pub open spec fn registry_after_creation(registry: ProgramStateModel) -> ProgramStateModel {
    ProgramStateModel { total_groups: registry.total_groups + 1, ..registry }
}

/// Whether the registry can count the new group: where it is created, the
/// count of groups has room for it.
pub open spec fn creation_fits(
    registry: ProgramStateModel,
    name: Seq<char>,
    description: Seq<char>,
    stake_amount: nat,
    max_members: nat,
) -> bool {
    creation_refusal(name, description, stake_amount, max_members) is None
        ==> registry_after_creation(registry).representable()
}

/// The rule, if any, that refuses a group with these terms.
fn creation_rule(name: &str, description: &str, stake_amount: u64, max_members: u8) -> (rule:
    Option<StudyGroupError>)
    ensures
        rule == creation_refusal(name@, description@, stake_amount as nat, max_members as nat),
{
    if byte_len(name) > MAX_NAME_LEN {
        Some(StudyGroupError::NameTooLong)
    } else if byte_len(description) > MAX_DESCRIPTION_LEN {
        Some(StudyGroupError::DescriptionTooLong)
    } else if max_members < MIN_GROUP_SIZE || max_members > MAX_GROUP_SIZE {
        Some(StudyGroupError::InvalidMaxMembers)
    } else if stake_amount < MIN_STAKE {
        Some(StudyGroupError::StakeTooLow)
    } else {
        None
    }
}

/// Decides [`creation_fits`], the condition under which
/// [`create_study_group`] may be called.
pub fn create_study_group_fits(
    ctx: &CreateStudyGroup,
    name: &str,
    description: &str,
    stake_amount: u64,
    max_members: u8,
) -> (fits: bool)
    ensures
        fits == creation_fits(
            ctx.program_state@,
            name@,
            description@,
            stake_amount as nat,
            max_members as nat,
        ),
{
    match creation_rule(name, description, stake_amount, max_members) {
        Some(_) => true,
        None => ctx.program_state.total_groups < u64::MAX,
    }
}

/// Creates a group at time `now`.
///
/// It is created exactly when the name takes at most [`MAX_NAME_LEN`]
/// bytes, the description at most [`MAX_DESCRIPTION_LEN`], the size lies
/// within [`MIN_GROUP_SIZE`]`..=`[`MAX_GROUP_SIZE`] and the stake is at
/// least [`MIN_STAKE`]. Then the group record is filled and the registry
/// counts one more group; otherwise nothing changes. The registry's count
/// must have room for the group, which [`create_study_group_fits`] tests.
pub fn create_study_group(
    ctx: &mut CreateStudyGroup,
    name: String,
    subject: String,
    description: String,
    stake_amount: u64,
    max_members: u8,
    duration_days: u16,
    now: i64,
) -> (res: Result<StudyGroupCreated, StudyGroupError>)
    requires
        creation_fits(
            old(ctx).program_state@,
            name@,
            description@,
            stake_amount as nat,
            max_members as nat,
        ),
    ensures
        match res {
            Ok(event) => {
                &&& creation_refusal(
                    name@,
                    description@,
                    stake_amount as nat,
                    max_members as nat,
                ) is None
                &&& final(ctx).study_group@ == group_on_creation(
                    old(ctx).program_state@,
                    old(ctx).creator,
                    name@,
                    subject@,
                    description@,
                    stake_amount as nat,
                    max_members as nat,
                    duration_days as nat,
                    now as int,
                )
                &&& final(ctx).program_state@ == registry_after_creation(old(ctx).program_state@)
                &&& final(ctx).creator == old(ctx).creator
                &&& final(ctx).study_group@.wf()
                &&& event.group_id == old(ctx).program_state.total_groups
                &&& event.creator == old(ctx).creator
                &&& event.name@ == name@
                &&& event.stake_requirement == stake_amount
            },
            Err(e) => {
                &&& creation_refusal(
                    name@,
                    description@,
                    stake_amount as nat,
                    max_members as nat,
                ) == Some(e)
                &&& *final(ctx) == *old(ctx)
            },
        },
{
    if let Some(rule) = creation_rule(name.as_str(), description.as_str(), stake_amount, max_members) {
        return Err(rule);
    }
    let group_id: u64 = ctx.program_state.total_groups;
    let event = StudyGroupCreated {
        group_id,
        creator: ctx.creator,
        name: name.clone(),
        stake_requirement: stake_amount,
    };
    ctx.study_group.group_id = group_id;
    ctx.study_group.creator = ctx.creator;
    ctx.study_group.name = name;
    ctx.study_group.subject = subject;
    ctx.study_group.description = description;
    ctx.study_group.stake_requirement = stake_amount;
    ctx.study_group.max_members = max_members;
    ctx.study_group.current_members = 0;
    ctx.study_group.reward_pool = 0;
    ctx.study_group.created_at = now;
    ctx.study_group.duration_days = duration_days;
    ctx.study_group.is_active = true;
    ctx.study_group.penalty_rate = EARLY_EXIT_PENALTY_RATE;
    ctx.study_group.proposal_count = 0;
    ctx.program_state.total_groups = ctx.program_state.total_groups + 1;
    Ok(event)
}

} // verus!
