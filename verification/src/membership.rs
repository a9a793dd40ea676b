//! Joining a group, checking in day by day, and leaving early.

use vstd::prelude::*;
use anchor_lang::prelude::Pubkey;
use crate::contexts::{DailyCheckIn, JoinGroup, LeaveGroup};
use crate::errors::{Abort, StudyGroupError};
use crate::events::{DailyCheckInRecorded, MemberJoined, MemberLeft};
use crate::rail::{RailOutcome, TransferRequest};
use crate::state::{MemberProfile, MemberProfileModel, StudyGroup, StudyGroupModel};

verus! {

/// Length of a day in seconds.
pub const SECONDS_PER_DAY: i64 = 86_400;

/// Points for any check-in.
pub const CHECK_IN_POINTS: u32 = 10;

/// Extra points for a check-in that brings the streak to
/// [`STREAK_BONUS_FROM`] days or more.
pub const STREAK_BONUS: u32 = 20;

/// Shortest streak that earns [`STREAK_BONUS`].
pub const STREAK_BONUS_FROM: u32 = 7;

// ---------------------------------------------------------------------
// Joining
// ---------------------------------------------------------------------

/// The rule, if any, that keeps a newcomer out of `group`.
pub open spec fn join_refusal(group: StudyGroupModel) -> Option<StudyGroupError> {
    if !group.is_active {
        Some(StudyGroupError::GroupNotActive)
    } else if group.current_members >= group.max_members {
        Some(StudyGroupError::GroupFull)
    } else {
        None
    }
}

/// The group once one more member has paid in the stake.
pub open spec fn group_after_join(group: StudyGroupModel) -> StudyGroupModel {
    StudyGroupModel {
        current_members: group.current_members + 1,
        reward_pool: group.reward_pool + group.stake_requirement,
        ..group
    }
}

/// The profile a member starts with on joining `group` at time `now`.
pub open spec fn profile_on_join(group: StudyGroupModel, member: Pubkey, now: int)
    -> MemberProfileModel {
    MemberProfileModel {
        member,
        group_id: group.group_id,
        stake_amount: group.stake_requirement,
        check_in_count: 0,
        current_streak: 0,
        total_tips_received: 0,
        participation_score: 0,
        join_date: now,
        is_active: true,
        last_check_in: 0,
    }
}

/// Whether the group's books can take the join: where the newcomer is
/// admitted, the pool has room for the stake.
pub open spec fn join_fits(group: StudyGroupModel, rail: RailOutcome) -> bool {
    join_refusal(group) is None && rail is Moved ==> group_after_join(group).representable()
}

/// The rule, if any, that keeps a newcomer out of `group`.
fn join_rule(group: &StudyGroup) -> (rule: Option<StudyGroupError>)
    ensures
        rule == join_refusal(group@),
{
    if !group.is_active {
        Some(StudyGroupError::GroupNotActive)
    } else if group.current_members >= group.max_members {
        Some(StudyGroupError::GroupFull)
    } else {
        None
    }
}

/// Decides [`join_fits`], the condition under which [`join_group`] may be
/// called.
pub fn join_group_fits(ctx: &JoinGroup, rail: RailOutcome) -> (fits: bool)
    ensures
        fits == join_fits(ctx.study_group@, rail),
{
    match (join_rule(&ctx.study_group), rail) {
        (None, RailOutcome::Moved) => ctx.study_group.stake_requirement <= u64::MAX
            - ctx.study_group.reward_pool,
        _ => true,
    }
}

/// The transfer that joining needs: the group's stake, out of the member's
/// account into the group's, on the member's own word. Refused, with the
/// rule that refuses it, exactly when joining would be.
pub fn join_group_transfer(ctx: &JoinGroup) -> (res: Result<TransferRequest, StudyGroupError>)
    ensures
        match res {
            Ok(request) => join_refusal(ctx.study_group@) is None && request == (TransferRequest {
                from: ctx.member_token_account,
                to: ctx.group_token_account,
                authority: ctx.member,
                amount: ctx.study_group.stake_requirement,
            }),
            Err(e) => join_refusal(ctx.study_group@) == Some(e),
        },
{
    if let Some(rule) = join_rule(&ctx.study_group) {
        return Err(rule);
    }
    Ok(
        TransferRequest {
            from: ctx.member_token_account,
            to: ctx.group_token_account,
            authority: ctx.member,
            amount: ctx.study_group.stake_requirement,
        },
    )
}

/// Admits `ctx.member` to the group at time `now`, given the rail's answer
/// to the request of [`join_group_transfer`].
///
/// The member is admitted exactly when the group is active, has a free
/// place, and the stake has moved. Then the profile is written afresh, the
/// head count grows by one and the pool by the stake. Otherwise nothing
/// changes. The pool must have room for the stake, which
/// [`join_group_fits`] tests.
pub fn join_group(ctx: &mut JoinGroup, now: i64, rail: RailOutcome) -> (res: Result<
    MemberJoined,
    Abort,
>)
    requires
        join_fits(old(ctx).study_group@, rail),
    ensures
        match res {
            Ok(event) => {
                &&& join_refusal(old(ctx).study_group@) is None
                &&& rail is Moved
                &&& final(ctx).study_group@ == group_after_join(old(ctx).study_group@)
                &&& final(ctx).member_profile@ == profile_on_join(
                    old(ctx).study_group@,
                    old(ctx).member,
                    now as int,
                )
                &&& final(ctx).member == old(ctx).member
                &&& final(ctx).member_token_account == old(ctx).member_token_account
                &&& final(ctx).group_token_account == old(ctx).group_token_account
                &&& event == (MemberJoined {
                    group_id: old(ctx).study_group.group_id,
                    member: old(ctx).member,
                    stake_amount: old(ctx).study_group.stake_requirement,
                })
            },
            Err(Abort::Refused(e)) => {
                &&& join_refusal(old(ctx).study_group@) == Some(e)
                &&& *final(ctx) == *old(ctx)
            },
            Err(Abort::TransferFailed) => {
                &&& join_refusal(old(ctx).study_group@) is None
                &&& rail is Failed
                &&& *final(ctx) == *old(ctx)
            },
        },
        old(ctx).study_group@.wf() ==> final(ctx).study_group@.wf(),
{
    if let Some(rule) = join_rule(&ctx.study_group) {
        return Err(Abort::Refused(rule));
    }
    match rail {
        RailOutcome::Failed => {
            return Err(Abort::TransferFailed);
        },
        RailOutcome::Moved => {},
    }
    let stake: u64 = ctx.study_group.stake_requirement;
    ctx.member_profile = MemberProfile {
        member: ctx.member,
        group_id: ctx.study_group.group_id,
        stake_amount: stake,
        check_in_count: 0,
        current_streak: 0,
        total_tips_received: 0,
        participation_score: 0,
        join_date: now,
        is_active: true,
        last_check_in: 0,
    };
    ctx.study_group.current_members = ctx.study_group.current_members + 1;
    ctx.study_group.reward_pool = ctx.study_group.reward_pool + stake;
    Ok(MemberJoined { group_id: ctx.study_group.group_id, member: ctx.member, stake_amount: stake })
}

// ---------------------------------------------------------------------
// Daily check-in
// ---------------------------------------------------------------------

/// The day a moment falls on: whole days since the epoch, rounded down.
pub open spec fn day_of(time: int) -> int {
    time / (SECONDS_PER_DAY as int)
}

/// The rule, if any, that refuses a check-in by `profile` at time `now`.
pub open spec fn check_in_refusal(profile: MemberProfileModel, now: int) -> Option<
    StudyGroupError,
> {
    if !profile.is_active {
        Some(StudyGroupError::MemberNotActive)
    } else if day_of(now) <= day_of(profile.last_check_in) {
        Some(StudyGroupError::AlreadyCheckedInToday)
    } else {
        None
    }
}

/// The streak after a check-in at `now`: one longer when the last check-in
/// was the day before, and starting over at one otherwise.
pub open spec fn streak_after_check_in(profile: MemberProfileModel, now: int) -> nat {
    if day_of(now) == day_of(profile.last_check_in) + 1 {
        profile.current_streak + 1
    } else {
        1
    }
}

/// Points a check-in earns when it brings the streak to `streak`.
pub open spec fn check_in_points(streak: nat) -> nat {
    if streak >= STREAK_BONUS_FROM {
        (CHECK_IN_POINTS + STREAK_BONUS) as nat
    } else {
        CHECK_IN_POINTS as nat
    }
}

/// The profile after a check-in at `now`.
pub open spec fn profile_after_check_in(profile: MemberProfileModel, now: int)
    -> MemberProfileModel {
    let streak = streak_after_check_in(profile, now);
    MemberProfileModel {
        current_streak: streak,
        check_in_count: profile.check_in_count + 1,
        last_check_in: now,
        participation_score: profile.participation_score + check_in_points(streak),
        ..profile
    }
}

/// Whether the profile's counters can take the check-in: where it is
/// recorded, the new streak, count and score fit their fields.
pub open spec fn check_in_fits(profile: MemberProfileModel, now: int) -> bool {
    check_in_refusal(profile, now) is None ==> profile_after_check_in(
        profile,
        now,
    ).representable()
}

/// The day `time` falls on.
pub fn day_index(time: i64) -> (day: i64)
    ensures
        day == day_of(time as int),
{
    if time >= 0 {
        time / SECONDS_PER_DAY
    } else {
        let past: i64 = -(time + 1);
        -(past / SECONDS_PER_DAY) - 1
    }
}

/// The rule, if any, that refuses a check-in by `profile` at time `now`.
fn check_in_rule(profile: &MemberProfile, now: i64) -> (rule: Option<StudyGroupError>)
    ensures
        rule == check_in_refusal(profile@, now as int),
{
    if !profile.is_active {
        Some(StudyGroupError::MemberNotActive)
    } else if day_index(now) <= day_index(profile.last_check_in) {
        Some(StudyGroupError::AlreadyCheckedInToday)
    } else {
        None
    }
}

/// Decides [`check_in_fits`], the condition under which
/// [`daily_check_in`] may be called.
pub fn daily_check_in_fits(ctx: &DailyCheckIn, now: i64) -> (fits: bool)
    ensures
        fits == check_in_fits(ctx.member_profile@, now as int),
{
    if let Some(_) = check_in_rule(&ctx.member_profile, now) {
        return true;
    }
    let consecutive: bool = day_index(now) == day_index(ctx.member_profile.last_check_in) + 1;
    if ctx.member_profile.check_in_count == u32::MAX {
        return false;
    }
    if consecutive && ctx.member_profile.current_streak == u32::MAX {
        return false;
    }
    let streak: u32 = if consecutive {
        ctx.member_profile.current_streak + 1
    } else {
        1
    };
    let points: u32 = if streak >= STREAK_BONUS_FROM {
        CHECK_IN_POINTS + STREAK_BONUS
    } else {
        CHECK_IN_POINTS
    };
    ctx.member_profile.participation_score <= u32::MAX - points
}

/// Records a check-in at time `now`.
///
/// It is recorded exactly when the profile is active and `now` falls on a
/// later day than the last check-in. Then the streak, the count, the time
/// of the last check-in and the score are brought up to date; otherwise
/// nothing changes. The counters must have room for the new values, which
/// [`daily_check_in_fits`] tests.
pub fn daily_check_in(ctx: &mut DailyCheckIn, now: i64) -> (res: Result<
    DailyCheckInRecorded,
    StudyGroupError,
>)
    requires
        check_in_fits(old(ctx).member_profile@, now as int),
    ensures
        match res {
            Ok(event) => {
                &&& check_in_refusal(old(ctx).member_profile@, now as int) is None
                &&& final(ctx).member_profile@ == profile_after_check_in(
                    old(ctx).member_profile@,
                    now as int,
                )
                &&& final(ctx).member == old(ctx).member
                &&& event == (DailyCheckInRecorded {
                    member: old(ctx).member,
                    group_id: old(ctx).member_profile.group_id,
                    streak: final(ctx).member_profile.current_streak,
                })
            },
            Err(e) => {
                &&& check_in_refusal(old(ctx).member_profile@, now as int) == Some(e)
                &&& *final(ctx) == *old(ctx)
            },
        },
{
    if let Some(rule) = check_in_rule(&ctx.member_profile, now) {
        return Err(rule);
    }
    if day_index(now) == day_index(ctx.member_profile.last_check_in) + 1 {
        ctx.member_profile.current_streak = ctx.member_profile.current_streak + 1;
    } else {
        ctx.member_profile.current_streak = 1;
    }
    ctx.member_profile.check_in_count = ctx.member_profile.check_in_count + 1;
    ctx.member_profile.last_check_in = now;
    ctx.member_profile.participation_score = ctx.member_profile.participation_score
        + CHECK_IN_POINTS;
    if ctx.member_profile.current_streak >= STREAK_BONUS_FROM {
        ctx.member_profile.participation_score = ctx.member_profile.participation_score
            + STREAK_BONUS;
    }
    Ok(
        DailyCheckInRecorded {
            member: ctx.member,
            group_id: ctx.member_profile.group_id,
            streak: ctx.member_profile.current_streak,
        },
    )
}

// ---------------------------------------------------------------------
// Leaving early
// ---------------------------------------------------------------------

/// The part of `stake` forfeited to the pool at a penalty of `rate`
/// percent, rounded down.
pub open spec fn exit_penalty(stake: nat, rate: nat) -> nat {
    stake * rate / 100
}

/// What a leaving member gets back: the stake less the penalty.
pub open spec fn exit_refund(stake: nat, rate: nat) -> int {
    stake - exit_penalty(stake, rate)
}

/// The rule, if any, that refuses `profile` leave.
pub open spec fn leave_refusal(profile: MemberProfileModel) -> Option<StudyGroupError> {
    if !profile.is_active {
        Some(StudyGroupError::MemberNotActive)
    } else {
        None
    }
}

/// The group once the member behind `profile` has left: one member fewer,
/// and the pool less that member's whole stake.
pub open spec fn group_after_leave(group: StudyGroupModel, profile: MemberProfileModel)
    -> StudyGroupModel {
    StudyGroupModel {
        current_members: (group.current_members - 1) as nat,
        reward_pool: (group.reward_pool - profile.stake_amount) as nat,
        ..group
    }
}

/// The profile of a member who has left.
pub open spec fn profile_after_leave(profile: MemberProfileModel) -> MemberProfileModel {
    MemberProfileModel { is_active: false, ..profile }
}

/// Whether the group's books can take the departure: there is a member to
/// strike off and the pool holds the stake to release.
pub open spec fn leave_is_covered(group: StudyGroupModel, profile: MemberProfileModel) -> bool {
    group.current_members >= 1 && group.reward_pool >= profile.stake_amount
}

/// Whether the refund can be worked out: for an active member, the penalty
/// does not exceed the stake.
pub open spec fn refund_fits(group: StudyGroupModel, profile: MemberProfileModel) -> bool {
    leave_refusal(profile) is None ==> exit_refund(profile.stake_amount, group.penalty_rate) >= 0
}

/// Whether the departure can be carried out: the refund can be worked out
/// and, where the member does leave, the group's books cover it.
pub open spec fn leave_fits(
    group: StudyGroupModel,
    profile: MemberProfileModel,
    rail: RailOutcome,
) -> bool {
    &&& refund_fits(group, profile)
    &&& leave_refusal(profile) is None && (rail is Moved || exit_refund(
        profile.stake_amount,
        group.penalty_rate,
    ) == 0) ==> leave_is_covered(group, profile)
}

/// The rule, if any, that refuses `profile` leave.
fn leave_rule(profile: &MemberProfile) -> (rule: Option<StudyGroupError>)
    ensures
        rule == leave_refusal(profile@),
{
    if !profile.is_active {
        Some(StudyGroupError::MemberNotActive)
    } else {
        None
    }
}

/// The penalty on `stake` at `rate` percent.
fn penalty_amount(stake: u64, rate: u8) -> (penalty: u128)
    ensures
        penalty == exit_penalty(stake as nat, rate as nat),
{
    assert(0 <= stake * rate <= u64::MAX * u8::MAX) by (nonlinear_arith)
        requires
            0 <= stake <= u64::MAX,
            0 <= rate <= u8::MAX,
    ;
    let product: u128 = (stake as u128) * (rate as u128);
    product / 100
}

/// Decides [`refund_fits`], the condition under which
/// [`leave_group_transfer`] may be called.
pub fn leave_group_transfer_fits(ctx: &LeaveGroup) -> (fits: bool)
    ensures
        fits == refund_fits(ctx.study_group@, ctx.member_profile@),
{
    if let Some(_) = leave_rule(&ctx.member_profile) {
        return true;
    }
    let stake: u64 = ctx.member_profile.stake_amount;
    penalty_amount(stake, ctx.study_group.penalty_rate) <= stake as u128
}

/// Decides [`leave_fits`], the condition under which [`leave_group`] may
/// be called.
pub fn leave_group_fits(ctx: &LeaveGroup, rail: RailOutcome) -> (fits: bool)
    ensures
        fits == leave_fits(ctx.study_group@, ctx.member_profile@, rail),
{
    if let Some(_) = leave_rule(&ctx.member_profile) {
        return true;
    }
    let stake: u64 = ctx.member_profile.stake_amount;
    let penalty: u128 = penalty_amount(stake, ctx.study_group.penalty_rate);
    if penalty > stake as u128 {
        return false;
    }
    let settled: bool = match rail {
        RailOutcome::Moved => true,
        RailOutcome::Failed => penalty == stake as u128,
    };
    !settled || (ctx.study_group.current_members >= 1 && ctx.study_group.reward_pool >= stake)
}

/// The transfer that leaving needs, if any: the refund, out of the group's
/// account into the member's, on the group authority's word. No transfer is
/// needed when the refund is nothing. Refused exactly when leaving would
/// be. The penalty must not exceed the stake, which
/// [`leave_group_transfer_fits`] tests.
pub fn leave_group_transfer(ctx: &LeaveGroup) -> (res: Result<
    Option<TransferRequest>,
    StudyGroupError,
>)
    requires
        refund_fits(ctx.study_group@, ctx.member_profile@),
    ensures
        match res {
            Ok(Some(request)) => {
                &&& leave_refusal(ctx.member_profile@) is None
                &&& request.amount > 0
                &&& request == (TransferRequest {
                    from: ctx.group_token_account,
                    to: ctx.member_token_account,
                    authority: ctx.group_authority,
                    amount: exit_refund(
                        ctx.member_profile@.stake_amount,
                        ctx.study_group@.penalty_rate,
                    ) as u64,
                })
            },
            Ok(None) => {
                &&& leave_refusal(ctx.member_profile@) is None
                &&& exit_refund(ctx.member_profile@.stake_amount, ctx.study_group@.penalty_rate)
                    == 0
            },
            Err(e) => leave_refusal(ctx.member_profile@) == Some(e),
        },
{
    if let Some(rule) = leave_rule(&ctx.member_profile) {
        return Err(rule);
    }
    let stake: u64 = ctx.member_profile.stake_amount;
    let penalty: u128 = penalty_amount(stake, ctx.study_group.penalty_rate);
    let refund: u64 = stake - (penalty as u64);
    if refund > 0 {
        Ok(
            Some(
                TransferRequest {
                    from: ctx.group_token_account,
                    to: ctx.member_token_account,
                    authority: ctx.group_authority,
                    amount: refund,
                },
            ),
        )
    } else {
        Ok(None)
    }
}

/// Takes `ctx.member` out of the group, given the rail's answer to the
/// request of [`leave_group_transfer`]; where that asked for no transfer,
/// `rail` is not looked at.
///
/// The member leaves exactly when the profile is active and the refund, if
/// there is one, has moved. Then the profile is closed, the head count
/// drops by one and the pool by the member's whole stake, so the penalty
/// stays with those who remain. Otherwise nothing changes. The penalty must
/// not exceed the stake, and the group's books must cover the departure,
/// which [`leave_group_fits`] tests.
pub fn leave_group(ctx: &mut LeaveGroup, rail: RailOutcome) -> (res: Result<MemberLeft, Abort>)
    requires
        leave_fits(old(ctx).study_group@, old(ctx).member_profile@, rail),
    ensures
        match res {
            Ok(event) => {
                &&& leave_refusal(old(ctx).member_profile@) is None
                &&& rail is Moved || event.refund_amount == 0
                &&& final(ctx).study_group@ == group_after_leave(
                    old(ctx).study_group@,
                    old(ctx).member_profile@,
                )
                &&& final(ctx).member_profile@ == profile_after_leave(old(ctx).member_profile@)
                &&& final(ctx).member == old(ctx).member
                &&& final(ctx).member_token_account == old(ctx).member_token_account
                &&& final(ctx).group_token_account == old(ctx).group_token_account
                &&& final(ctx).group_authority == old(ctx).group_authority
                &&& event == (MemberLeft {
                    member: old(ctx).member,
                    group_id: old(ctx).study_group.group_id,
                    refund_amount: exit_refund(
                        old(ctx).member_profile@.stake_amount,
                        old(ctx).study_group@.penalty_rate,
                    ) as u64,
                })
            },
            Err(Abort::Refused(e)) => {
                &&& leave_refusal(old(ctx).member_profile@) == Some(e)
                &&& *final(ctx) == *old(ctx)
            },
            Err(Abort::TransferFailed) => {
                &&& leave_refusal(old(ctx).member_profile@) is None
                &&& rail is Failed
                &&& exit_refund(
                    old(ctx).member_profile@.stake_amount,
                    old(ctx).study_group@.penalty_rate,
                ) > 0
                &&& *final(ctx) == *old(ctx)
            },
        },
        old(ctx).study_group@.wf() ==> final(ctx).study_group@.wf(),
{
    if let Some(rule) = leave_rule(&ctx.member_profile) {
        return Err(Abort::Refused(rule));
    }
    let stake: u64 = ctx.member_profile.stake_amount;
    let penalty: u128 = penalty_amount(stake, ctx.study_group.penalty_rate);
    let refund: u64 = stake - (penalty as u64);
    if refund > 0 {
        match rail {
            RailOutcome::Failed => {
                return Err(Abort::TransferFailed);
            },
            RailOutcome::Moved => {},
        }
    }
    ctx.member_profile.is_active = false;
    ctx.study_group.current_members = ctx.study_group.current_members - 1;
    ctx.study_group.reward_pool = ctx.study_group.reward_pool - stake;
    Ok(
        MemberLeft {
            member: ctx.member,
            group_id: ctx.study_group.group_id,
            refund_amount: refund,
        },
    )
}

} // verus!
