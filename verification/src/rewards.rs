//! Reward claims: a member's share of the pool, in proportion to the
//! participation score.

use vstd::prelude::*;
use crate::contexts::ClaimRewards;
use crate::errors::{Abort, StudyGroupError};
use crate::events::RewardsClaimed;
use crate::rail::{RailOutcome, TransferRequest};
use crate::state::{MemberProfile, MemberProfileModel, StudyGroup, StudyGroupModel};

verus! {

/// A score of this many points would claim the whole pool.
pub const SHARE_DIVISOR: u64 = 1000;

/// The share of `pool` that a score of `score` claims, rounded down.
pub open spec fn reward_share(score: nat, pool: nat) -> nat {
    score * pool / (SHARE_DIVISOR as nat)
}

/// The rule, if any, that refuses `profile` a claim on `group`.
pub open spec fn claim_refusal(group: StudyGroupModel, profile: MemberProfileModel) -> Option<
    StudyGroupError,
> {
    if !profile.is_active {
        Some(StudyGroupError::MemberNotActive)
    } else if reward_share(profile.participation_score, group.reward_pool) == 0 {
        Some(StudyGroupError::NoRewardsAvailable)
    } else {
        None
    }
}

/// Whether the share can be paid out: for an active member, it fits the
/// 64 bits of a transfer's amount.
pub open spec fn claim_fits(group: StudyGroupModel, profile: MemberProfileModel) -> bool {
    profile.is_active ==> reward_share(profile.participation_score, group.reward_pool)
        <= u64::MAX
}

/// The share of `pool` for `score`.
fn share_amount(score: u32, pool: u64) -> (share: u128)
    ensures
        share == reward_share(score as nat, pool as nat),
{
    assert(0 <= score * pool <= u32::MAX * u64::MAX) by (nonlinear_arith)
        requires
            0 <= score <= u32::MAX,
            0 <= pool <= u64::MAX,
    ;
    let product: u128 = (score as u128) * (pool as u128);
    product / (SHARE_DIVISOR as u128)
}

/// The rule, if any, that refuses `profile` a claim on `group`.
fn claim_rule(group: &StudyGroup, profile: &MemberProfile) -> (rule: Option<StudyGroupError>)
    ensures
        rule == claim_refusal(group@, profile@),
{
    if !profile.is_active {
        Some(StudyGroupError::MemberNotActive)
    } else if share_amount(profile.participation_score, group.reward_pool) == 0 {
        Some(StudyGroupError::NoRewardsAvailable)
    } else {
        None
    }
}

/// Decides [`claim_fits`], the condition under which
/// [`claim_rewards_transfer`] and [`claim_rewards`] may be called.
pub fn claim_rewards_fits(ctx: &ClaimRewards) -> (fits: bool)
    ensures
        fits == claim_fits(ctx.study_group@, ctx.member_profile@),
{
    !ctx.member_profile.is_active || share_amount(
        ctx.member_profile.participation_score,
        ctx.study_group.reward_pool,
    ) <= u64::MAX as u128
}

/// The transfer that a claim needs: the member's share, out of the group's
/// account into the member's, on the group authority's word. Refused
/// exactly when the claim would be. The share must fit in 64 bits, which
/// [`claim_rewards_fits`] tests.
pub fn claim_rewards_transfer(ctx: &ClaimRewards) -> (res: Result<
    TransferRequest,
    StudyGroupError,
>)
    requires
        claim_fits(ctx.study_group@, ctx.member_profile@),
    ensures
        match res {
            Ok(request) => {
                &&& claim_refusal(ctx.study_group@, ctx.member_profile@) is None
                &&& request == (TransferRequest {
                    from: ctx.group_token_account,
                    to: ctx.member_token_account,
                    authority: ctx.group_authority,
                    amount: reward_share(
                        ctx.member_profile@.participation_score,
                        ctx.study_group@.reward_pool,
                    ) as u64,
                })
            },
            Err(e) => claim_refusal(ctx.study_group@, ctx.member_profile@) == Some(e),
        },
{
    if let Some(rule) = claim_rule(&ctx.study_group, &ctx.member_profile) {
        return Err(rule);
    }
    let share: u128 = share_amount(
        ctx.member_profile.participation_score,
        ctx.study_group.reward_pool,
    );
    Ok(
        TransferRequest {
            from: ctx.group_token_account,
            to: ctx.member_token_account,
            authority: ctx.group_authority,
            amount: share as u64,
        },
    )
}

/// Settles a claim, given the rail's answer to the request of
/// [`claim_rewards_transfer`].
///
/// The claim is paid exactly when the profile is active, its share is not
/// nothing, and the share has moved. A claim changes no record: neither the
/// pool nor the score is reduced by it. The share must fit in 64 bits,
/// which [`claim_rewards_fits`] tests.
pub fn claim_rewards(ctx: &ClaimRewards, rail: RailOutcome) -> (res: Result<RewardsClaimed, Abort>)
    requires
        claim_fits(ctx.study_group@, ctx.member_profile@),
    ensures
        match res {
            Ok(event) => {
                &&& claim_refusal(ctx.study_group@, ctx.member_profile@) is None
                &&& rail is Moved
                &&& event == (RewardsClaimed {
                    member: ctx.member,
                    group_id: ctx.study_group.group_id,
                    amount: reward_share(
                        ctx.member_profile@.participation_score,
                        ctx.study_group@.reward_pool,
                    ) as u64,
                })
            },
            Err(Abort::Refused(e)) => claim_refusal(ctx.study_group@, ctx.member_profile@) == Some(
                e,
            ),
            Err(Abort::TransferFailed) => {
                &&& claim_refusal(ctx.study_group@, ctx.member_profile@) is None
                &&& rail is Failed
            },
        },
{
    if let Some(rule) = claim_rule(&ctx.study_group, &ctx.member_profile) {
        return Err(Abort::Refused(rule));
    }
    let share: u128 = share_amount(
        ctx.member_profile.participation_score,
        ctx.study_group.reward_pool,
    );
    match rail {
        RailOutcome::Failed => {
            return Err(Abort::TransferFailed);
        },
        RailOutcome::Moved => {},
    }
    Ok(
        RewardsClaimed {
            member: ctx.member,
            group_id: ctx.study_group.group_id,
            amount: share as u64,
        },
    )
}

} // verus!
