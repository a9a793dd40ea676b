//! Peer tipping: a member thanks another with a small payment, which also
//! raises the recipient's participation score.

use vstd::prelude::*;
use crate::contexts::TipMember;
use crate::errors::{Abort, StudyGroupError};
use crate::events::MemberTipped;
use crate::rail::{RailOutcome, TransferRequest};
use crate::state::{MemberProfile, MemberProfileModel, TipCategory};

verus! {

/// Smallest tip accepted.
pub const MIN_TIP: u64 = 1_000_000;

/// Largest tip accepted.
pub const MAX_TIP: u64 = 100_000_000;

/// The rule, if any, that refuses `recipient` a tip of `amount`. The
/// amount is judged first, whoever the tip is for; a tip of an accepted
/// amount is then refused where the recipient's profile is closed.
pub open spec fn tip_refusal(recipient: MemberProfileModel, amount: nat) -> Option<
    StudyGroupError,
> {
    if amount < MIN_TIP {
        Some(StudyGroupError::TipTooSmall)
    } else if amount > MAX_TIP {
        Some(StudyGroupError::TipTooLarge)
    } else if !recipient.is_active {
        Some(StudyGroupError::MemberNotActive)
    } else {
        None
    }
}

/// Points a tip of each category adds to the recipient's score, whatever
/// the amount.
pub open spec fn tip_weight(category: TipCategory) -> nat {
    match category {
        TipCategory::Helpful => 15,
        TipCategory::Knowledgeable => 20,
        TipCategory::Motivational => 10,
        TipCategory::Collaborative => 12,
    }
}

/// The recipient's profile after a tip of `amount` in `category`.
pub open spec fn profile_after_tip(
    profile: MemberProfileModel,
    amount: nat,
    category: TipCategory,
) -> MemberProfileModel {
    MemberProfileModel {
        total_tips_received: profile.total_tips_received + amount,
        participation_score: profile.participation_score + tip_weight(category),
        ..profile
    }
}

/// Whether the recipient's counters can take the tip: where it is
/// credited, the new tip total and score fit their fields.
pub open spec fn tip_fits(
    profile: MemberProfileModel,
    amount: nat,
    category: TipCategory,
    rail: RailOutcome,
) -> bool {
    tip_refusal(profile, amount) is None && rail is Moved ==> profile_after_tip(
        profile,
        amount,
        category,
    ).representable()
}

/// The rule, if any, that refuses `recipient` a tip of `amount`.
fn tip_rule(recipient: &MemberProfile, amount: u64) -> (rule: Option<StudyGroupError>)
    ensures
        rule == tip_refusal(recipient@, amount as nat),
{
    if amount < MIN_TIP {
        Some(StudyGroupError::TipTooSmall)
    } else if amount > MAX_TIP {
        Some(StudyGroupError::TipTooLarge)
    } else if !recipient.is_active {
        Some(StudyGroupError::MemberNotActive)
    } else {
        None
    }
}

/// Points for a tip in `category`.
pub fn category_points(category: TipCategory) -> (points: u32)
    ensures
        points == tip_weight(category),
{
    match category {
        TipCategory::Helpful => 15,
        TipCategory::Knowledgeable => 20,
        TipCategory::Motivational => 10,
        TipCategory::Collaborative => 12,
    }
}

/// Decides [`tip_fits`], the condition under which [`tip_member`] may be
/// called.
pub fn tip_member_fits(ctx: &TipMember, amount: u64, category: TipCategory, rail: RailOutcome) -> (fits:
    bool)
    ensures
        fits == tip_fits(ctx.recipient_profile@, amount as nat, category, rail),
{
    match (tip_rule(&ctx.recipient_profile, amount), rail) {
        (None, RailOutcome::Moved) => {
            amount <= u64::MAX - ctx.recipient_profile.total_tips_received && category_points(
                category,
            ) <= u32::MAX - ctx.recipient_profile.participation_score
        },
        _ => true,
    }
}

/// The transfer that a tip of `amount` needs: the amount, out of the
/// sender's account into the recipient's, on the sender's own word.
/// Refused exactly when the tip would be, so no transfer is ever asked for
/// on behalf of a closed profile.
pub fn tip_member_transfer(ctx: &TipMember, amount: u64) -> (res: Result<
    TransferRequest,
    StudyGroupError,
>)
    ensures
        match res {
            Ok(request) => tip_refusal(ctx.recipient_profile@, amount as nat) is None && request
                == (TransferRequest {
                from: ctx.sender_token_account,
                to: ctx.recipient_token_account,
                authority: ctx.sender,
                amount,
            }),
            Err(e) => tip_refusal(ctx.recipient_profile@, amount as nat) == Some(e),
        },
{
    if let Some(rule) = tip_rule(&ctx.recipient_profile, amount) {
        return Err(rule);
    }
    Ok(
        TransferRequest {
            from: ctx.sender_token_account,
            to: ctx.recipient_token_account,
            authority: ctx.sender,
            amount,
        },
    )
}

/// Credits a tip of `amount` in `category` to the recipient, given the
/// rail's answer to the request of [`tip_member_transfer`].
///
/// The tip is credited exactly when the amount lies within
/// [`MIN_TIP`]`..=`[`MAX_TIP`], the recipient's profile is active, and the
/// amount has moved. Then the recipient's tip
/// total grows by the amount and the score by the category's weight;
/// otherwise nothing changes. The event names the owner of the recipient
/// profile as the recipient. The two counters must have room for the new
/// values, which [`tip_member_fits`] tests.
pub fn tip_member(ctx: &mut TipMember, amount: u64, category: TipCategory, rail: RailOutcome) -> (res:
    Result<MemberTipped, Abort>)
    requires
        tip_fits(old(ctx).recipient_profile@, amount as nat, category, rail),
    ensures
        match res {
            Ok(event) => {
                &&& tip_refusal(old(ctx).recipient_profile@, amount as nat) is None
                &&& rail is Moved
                &&& final(ctx).recipient_profile@ == profile_after_tip(
                    old(ctx).recipient_profile@,
                    amount as nat,
                    category,
                )
                &&& final(ctx).sender == old(ctx).sender
                &&& final(ctx).sender_token_account == old(ctx).sender_token_account
                &&& final(ctx).recipient_token_account == old(ctx).recipient_token_account
                &&& event == (MemberTipped {
                    sender: old(ctx).sender,
                    recipient: old(ctx).recipient_profile.member,
                    amount,
                    category,
                })
            },
            Err(Abort::Refused(e)) => {
                &&& tip_refusal(old(ctx).recipient_profile@, amount as nat) == Some(e)
                &&& *final(ctx) == *old(ctx)
            },
            Err(Abort::TransferFailed) => {
                &&& tip_refusal(old(ctx).recipient_profile@, amount as nat) is None
                &&& rail is Failed
                &&& *final(ctx) == *old(ctx)
            },
        },
{
    if let Some(rule) = tip_rule(&ctx.recipient_profile, amount) {
        return Err(Abort::Refused(rule));
    }
    match rail {
        RailOutcome::Failed => {
            return Err(Abort::TransferFailed);
        },
        RailOutcome::Moved => {},
    }
    ctx.recipient_profile.total_tips_received = ctx.recipient_profile.total_tips_received + amount;
    ctx.recipient_profile.participation_score = ctx.recipient_profile.participation_score
        + category_points(category);
    Ok(
        MemberTipped {
            sender: ctx.sender,
            recipient: ctx.recipient_profile.member,
            amount,
            category,
        },
    )
}

} // verus!
