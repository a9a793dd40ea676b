//! What holds of the operations taken together, proved over the models
//! that their contracts are stated in.

use vstd::prelude::*;
use anchor_lang::prelude::Pubkey;
use crate::errors::StudyGroupError;
use crate::governance::{
    execution_refusal, group_after_proposal, proposal_after_execution, proposal_after_vote,
    proposal_id_for, proposal_on_creation, vote_refusal, PROPOSAL_ID_STRIDE,
};
use crate::membership::{
    check_in_refusal, day_of, exit_penalty, exit_refund, group_after_join, group_after_leave,
    join_refusal, leave_is_covered, leave_refusal, profile_after_check_in, profile_after_leave,
    profile_on_join,
};
use crate::registry::{creation_refusal, group_on_creation, EARLY_EXIT_PENALTY_RATE};
use crate::reputation::{profile_after_tip, tip_refusal, tip_weight, MAX_TIP, MIN_TIP};
use crate::rewards::{claim_refusal, reward_share};
use crate::state::{
    ExecutionStatus, GovernanceProposalModel, MemberProfileModel, ProgramStateModel,
    ProposalType, StudyGroupModel, TipCategory,
};

verus! {

// ---------------------------------------------------------------------
// Capacity
// ---------------------------------------------------------------------

/// Something that is asked of a group: that a newcomer join, that the
/// member behind a profile leave, or that a proposal be opened.
pub enum GroupStep {
    Join,
    Leave { profile: MemberProfileModel },
    Propose,
}

/// Whether the group goes along with `step`.
pub open spec fn step_taken(group: StudyGroupModel, step: GroupStep) -> bool {
    match step {
        GroupStep::Join => join_refusal(group) is None,
        GroupStep::Leave { profile } => leave_refusal(profile) is None && leave_is_covered(
            group,
            profile,
        ),
        GroupStep::Propose => true,
    }
}

/// The group after `step`; a step it does not go along with leaves it as it
/// was.
pub open spec fn group_after_step(group: StudyGroupModel, step: GroupStep) -> StudyGroupModel {
    if !step_taken(group, step) {
        group
    } else {
        match step {
            GroupStep::Join => group_after_join(group),
            GroupStep::Leave { profile } => group_after_leave(group, profile),
            GroupStep::Propose => group_after_proposal(group),
        }
    }
}

/// The group after `steps`, in order.
pub open spec fn group_after_steps(group: StudyGroupModel, steps: Seq<GroupStep>)
    -> StudyGroupModel
    decreases steps.len(),
{
    if steps.len() == 0 {
        group
    } else {
        group_after_step(group_after_steps(group, steps.drop_last()), steps.last())
    }
}

/// A group is created within its capacity, with no members and at least
/// two places, on the terms given: active, its pool empty, the penalty at
/// ten percent.
pub proof fn new_group_is_within_capacity(
    registry: ProgramStateModel,
    creator: Pubkey,
    name: Seq<char>,
    subject: Seq<char>,
    description: Seq<char>,
    stake_amount: nat,
    max_members: nat,
    duration_days: nat,
    now: int,
)
    requires
        creation_refusal(name, description, stake_amount, max_members) is None,
    ensures
        group_on_creation(
            registry,
            creator,
            name,
            subject,
            description,
            stake_amount,
            max_members,
            duration_days,
            now,
        ).wf(),
        group_on_creation(
            registry,
            creator,
            name,
            subject,
            description,
            stake_amount,
            max_members,
            duration_days,
            now,
        ).current_members == 0,
        ({
            let group = group_on_creation(
                registry,
                creator,
                name,
                subject,
                description,
                stake_amount,
                max_members,
                duration_days,
                now,
            );
            &&& 2 <= group.max_members <= 50
            &&& group.max_members == max_members
            &&& group.stake_requirement == stake_amount
            &&& group.reward_pool == 0
            &&& group.is_active
            &&& group.penalty_rate == 10
            &&& group.group_id == registry.total_groups
            &&& group.creator == creator
            &&& group.name == name
            &&& group.subject == subject
            &&& group.description == description
            &&& group.duration_days == duration_days
            &&& group.created_at == now
        }),
{
}

/// Whatever is asked of a group, and in whatever order, its head count
/// stays between zero and its capacity, and its capacity stays what it was.
pub proof fn capacity_is_never_exceeded(group: StudyGroupModel, steps: Seq<GroupStep>)
    requires
        group.wf(),
    ensures
        group_after_steps(group, steps).wf(),
        0 <= group_after_steps(group, steps).current_members <= group.max_members,
        group_after_steps(group, steps).max_members == group.max_members,
    decreases steps.len(),
{
    if steps.len() > 0 {
        capacity_is_never_exceeded(group, steps.drop_last());
    }
}

/// Whether the group's terms are ones that a creation accepts, with the
/// penalty that a creation sets.
pub open spec fn terms_are_valid(group: StudyGroupModel) -> bool {
    &&& creation_refusal(
        group.name,
        group.description,
        group.stake_requirement,
        group.max_members,
    ) is None
    &&& group.penalty_rate == EARLY_EXIT_PENALTY_RATE
}

/// A group is created with valid terms, and they outlast whatever is asked
/// of the group: joins and leaves change the head count and the pool,
/// proposals the count of proposals, and nothing changes anything else.
pub proof fn terms_outlast_membership(
    registry: ProgramStateModel,
    creator: Pubkey,
    name: Seq<char>,
    subject: Seq<char>,
    description: Seq<char>,
    stake_amount: nat,
    max_members: nat,
    duration_days: nat,
    now: int,
    steps: Seq<GroupStep>,
)
    requires
        creation_refusal(name, description, stake_amount, max_members) is None,
    ensures
        ({
            let group = group_on_creation(
                registry,
                creator,
                name,
                subject,
                description,
                stake_amount,
                max_members,
                duration_days,
                now,
            );
            let later = group_after_steps(group, steps);
            &&& terms_are_valid(group)
            &&& terms_are_valid(later)
            &&& later == (StudyGroupModel {
                current_members: later.current_members,
                reward_pool: later.reward_pool,
                proposal_count: later.proposal_count,
                ..group
            })
        }),
    decreases steps.len(),
{
    if steps.len() > 0 {
        terms_outlast_membership(
            registry,
            creator,
            name,
            subject,
            description,
            stake_amount,
            max_members,
            duration_days,
            now,
            steps.drop_last(),
        );
    }
}

/// Whether the pool holds exactly one stake for each member.
pub open spec fn pool_is_sum_of_stakes(group: StudyGroupModel) -> bool {
    group.reward_pool == group.current_members * group.stake_requirement
}

/// Whether every member asked to leave in `steps` holds the stake that the
/// group asks for, as every profile written on joining it does.
pub open spec fn leavers_hold_the_stake(group: StudyGroupModel, steps: Seq<GroupStep>) -> bool {
    forall|i: int|
        0 <= i < steps.len() ==> match #[trigger] steps[i] {
            GroupStep::Leave { profile } => profile.stake_amount == group.stake_requirement,
            _ => true,
        }
}

/// A pool that holds one stake for each member goes on doing so, whoever
/// joins and whoever leaves: what is forfeited on leaving is kept out of
/// its count. A new group, with no members and an empty pool, is such a
/// pool.
pub proof fn pool_holds_the_stakes_of_the_members(group: StudyGroupModel, steps: Seq<GroupStep>)
    requires
        pool_is_sum_of_stakes(group),
        leavers_hold_the_stake(group, steps),
    ensures
        pool_is_sum_of_stakes(group_after_steps(group, steps)),
        group_after_steps(group, steps).stake_requirement == group.stake_requirement,
    decreases steps.len(),
{
    if steps.len() > 0 {
        let earlier = steps.drop_last();
        assert forall|i: int| 0 <= i < earlier.len() implies match #[trigger] earlier[i] {
            GroupStep::Leave { profile } => profile.stake_amount == group.stake_requirement,
            _ => true,
        } by {
            assert(earlier[i] == steps[i]);
        }
        pool_holds_the_stakes_of_the_members(group, earlier);
        let before = group_after_steps(group, earlier);
        let members = before.current_members as int;
        let stake = before.stake_requirement as int;
        assert((members + 1) * stake == members * stake + stake) by (nonlinear_arith);
        assert((members - 1) * stake == members * stake - stake) by (nonlinear_arith);
        assert(steps.last() == steps[steps.len() - 1]);
    }
}

/// In a group whose pool holds one stake for each member, a member who
/// holds the stake can always be let go: the books cover it.
pub proof fn members_of_a_sound_pool_can_leave(group: StudyGroupModel, profile: MemberProfileModel)
    requires
        pool_is_sum_of_stakes(group),
        group.current_members >= 1,
        profile.stake_amount == group.stake_requirement,
    ensures
        leave_is_covered(group, profile),
{
    let members = group.current_members as int;
    let stake = group.stake_requirement as int;
    assert(members * stake >= stake) by (nonlinear_arith)
        requires
            members >= 1,
            stake >= 0,
    ;
}

// ---------------------------------------------------------------------
// Joining
// ---------------------------------------------------------------------

/// A join that goes through adds exactly the stake to the pool and one to
/// the head count, and gives the newcomer a profile holding that stake.
pub proof fn join_adds_exactly_the_stake(group: StudyGroupModel, member: Pubkey, now: int)
    requires
        join_refusal(group) is None,
    ensures
        group_after_join(group).reward_pool == group.reward_pool + group.stake_requirement,
        group_after_join(group).current_members == group.current_members + 1,
        group_after_join(group).max_members == group.max_members,
        group.wf() ==> group_after_join(group).wf(),
        profile_on_join(group, member, now).stake_amount == group.stake_requirement,
        profile_on_join(group, member, now).is_active,
{
}

/// An active group with every place taken refuses a newcomer as full, and
/// is left as it was. In particular the join that takes the last place is
/// followed by such a refusal.
pub proof fn full_group_refuses_to_grow(group: StudyGroupModel)
    requires
        group.is_active,
    ensures
        group.current_members == group.max_members ==> join_refusal(group) == Some(
            StudyGroupError::GroupFull,
        ) && group_after_step(group, GroupStep::Join) == group,
        join_refusal(group) is None && group.current_members + 1 == group.max_members
            ==> join_refusal(group_after_join(group)) == Some(StudyGroupError::GroupFull),
{
}

// ---------------------------------------------------------------------
// Check-ins
// ---------------------------------------------------------------------

/// For an active member: a check-in on the day after the last one makes
/// the streak one longer; a check-in two or more days after it starts the
/// streak over at one; a check-in on the same day, or an earlier one, is
/// refused as already done today.
pub proof fn streak_law(profile: MemberProfileModel, now: int)
    requires
        profile.is_active,
    ensures
        day_of(now) == day_of(profile.last_check_in) + 1 ==> {
            &&& check_in_refusal(profile, now) is None
            &&& profile_after_check_in(profile, now).current_streak == profile.current_streak
                + 1
        },
        day_of(now) >= day_of(profile.last_check_in) + 2 ==> {
            &&& check_in_refusal(profile, now) is None
            &&& profile_after_check_in(profile, now).current_streak == 1
        },
        day_of(now) <= day_of(profile.last_check_in) ==> check_in_refusal(profile, now) == Some(
            StudyGroupError::AlreadyCheckedInToday,
        ),
{
}

/// A check-in that goes through adds ten points, and twenty more exactly
/// when it brings the streak to seven days or beyond.
pub proof fn score_law(profile: MemberProfileModel, now: int)
    requires
        check_in_refusal(profile, now) is None,
    ensures
        profile_after_check_in(profile, now).current_streak >= 7
            ==> profile_after_check_in(profile, now).participation_score
            == profile.participation_score + 30,
        profile_after_check_in(profile, now).current_streak < 7 ==> profile_after_check_in(
            profile,
            now,
        ).participation_score == profile.participation_score + 10,
        profile_after_check_in(profile, now).check_in_count == profile.check_in_count + 1,
        profile_after_check_in(profile, now).last_check_in == now,
{
}

/// The profile after check-ins are attempted at each of `times`, in order;
/// a refused attempt leaves it as it was.
pub open spec fn profile_after_check_ins(profile: MemberProfileModel, times: Seq<int>)
    -> MemberProfileModel
    decreases times.len(),
{
    if times.len() == 0 {
        profile
    } else {
        let before = profile_after_check_ins(profile, times.drop_last());
        if check_in_refusal(before, times.last()) is None {
            profile_after_check_in(before, times.last())
        } else {
            before
        }
    }
}

/// However often and whenever check-ins are attempted, the streak never
/// exceeds the number of check-ins recorded, and neither the count nor the
/// score ever drops.
pub proof fn streak_never_exceeds_check_ins(profile: MemberProfileModel, times: Seq<int>)
    requires
        profile.current_streak <= profile.check_in_count,
    ensures
        ({
            let after = profile_after_check_ins(profile, times);
            &&& after.current_streak <= after.check_in_count
            &&& profile.check_in_count <= after.check_in_count <= profile.check_in_count
                + times.len()
            &&& profile.participation_score + 10 * (after.check_in_count
                - profile.check_in_count) <= after.participation_score
            &&& after.participation_score <= profile.participation_score + 30 * (
            after.check_in_count - profile.check_in_count)
            &&& after.is_active == profile.is_active
        }),
    decreases times.len(),
{
    if times.len() > 0 {
        streak_never_exceeds_check_ins(profile, times.drop_last());
    }
}

/// Whether `times` fall on consecutive days, one each, the first of them
/// later than the day of the profile's last check-in.
pub open spec fn daily_run(profile: MemberProfileModel, times: Seq<int>) -> bool {
    &&& times.len() > 0
    &&& day_of(times[0]) > day_of(profile.last_check_in)
    &&& forall|i: int| 0 <= i < times.len() ==> day_of(#[trigger] times[i]) == day_of(times[0]) + i
}

/// The streak that a run starting at `first` builds on: the current one if
/// `first` is the day after the last check-in, none otherwise.
pub open spec fn streak_carried(profile: MemberProfileModel, first: int) -> nat {
    if day_of(first) == day_of(profile.last_check_in) + 1 {
        profile.current_streak
    } else {
        0
    }
}

/// How many of `days` consecutive check-ins, built on a streak of
/// `carried`, bring the streak to seven or beyond.
pub open spec fn bonus_days(carried: nat, days: nat) -> nat {
    if carried + days < 7 {
        0
    } else if carried >= 6 {
        days
    } else {
        (carried + days - 6) as nat
    }
}

/// An active member who checks in once a day, day after day, sees the
/// streak grow by one each day, and earns ten points a day plus twenty on
/// each day from the seventh of the streak on: never before.
pub proof fn unbroken_run_law(profile: MemberProfileModel, times: Seq<int>)
    requires
        profile.is_active,
        daily_run(profile, times),
    ensures
        ({
            let after = profile_after_check_ins(profile, times);
            let carried = streak_carried(profile, times[0]);
            &&& after.is_active
            &&& after.last_check_in == times.last()
            &&& after.current_streak == carried + times.len()
            &&& after.check_in_count == profile.check_in_count + times.len()
            &&& after.participation_score == profile.participation_score + 10 * times.len() + 20
                * bonus_days(carried, times.len())
        }),
    decreases times.len(),
{
    let earlier = times.drop_last();
    if earlier.len() == 0 {
        assert(profile_after_check_ins(profile, earlier) == profile);
        assert(times.last() == times[0]);
    } else {
        assert(earlier[0] == times[0]);
        assert forall|i: int| 0 <= i < earlier.len() implies day_of(#[trigger] earlier[i])
            == day_of(earlier[0]) + i by {
            assert(earlier[i] == times[i]);
        }
        unbroken_run_law(profile, earlier);
        assert(earlier.last() == times[times.len() - 2]);
    }
}

// ---------------------------------------------------------------------
// Tips
// ---------------------------------------------------------------------

/// A tip within the accepted range to an active member raises the
/// recipient's score by the weight of its category, whatever the amount,
/// and the tip total by the amount; a tip outside the range is refused as
/// too small or too large, whoever it is for.
pub proof fn tipping_law(profile: MemberProfileModel, amount: nat, category: TipCategory)
    ensures
        profile.is_active && MIN_TIP <= amount <= MAX_TIP ==> {
            &&& tip_refusal(profile, amount) is None
            &&& profile_after_tip(profile, amount, category).participation_score
                == profile.participation_score + tip_weight(category)
            &&& profile_after_tip(profile, amount, category).total_tips_received
                == profile.total_tips_received + amount
        },
        amount < MIN_TIP ==> tip_refusal(profile, amount) == Some(StudyGroupError::TipTooSmall),
        amount > MAX_TIP ==> tip_refusal(profile, amount) == Some(StudyGroupError::TipTooLarge),
        tip_weight(TipCategory::Helpful) == 15,
        tip_weight(TipCategory::Knowledgeable) == 20,
        tip_weight(TipCategory::Motivational) == 10,
        tip_weight(TipCategory::Collaborative) == 12,
{
}

/// Two tips of one category to the same active member leave the same
/// score, whatever the two amounts within the range.
pub proof fn tip_score_ignores_the_amount(
    profile: MemberProfileModel,
    amount_a: nat,
    amount_b: nat,
    category: TipCategory,
)
    requires
        profile.is_active,
        MIN_TIP <= amount_a <= MAX_TIP,
        MIN_TIP <= amount_b <= MAX_TIP,
    ensures
        tip_refusal(profile, amount_a) is None,
        tip_refusal(profile, amount_b) is None,
        profile_after_tip(profile, amount_a, category).participation_score == profile_after_tip(
            profile,
            amount_b,
            category,
        ).participation_score,
{
}

// ---------------------------------------------------------------------
// Governance
// ---------------------------------------------------------------------

/// A proposal starts pending and without votes, and the threshold is sixty
/// percent of the group's head count at that moment, rounded down.
pub proof fn threshold_law(
    group: StudyGroupModel,
    proposer: Pubkey,
    proposal_type: ProposalType,
    description: Seq<char>,
    now: int,
)
    ensures
        ({
            let proposal = proposal_on_creation(
                group,
                proposer,
                proposal_type,
                description,
                now,
            );
            &&& proposal.required_threshold == group.current_members * 60 / 100
            &&& proposal.proposal_id == group.group_id * 1000 + group.proposal_count
            &&& proposal.execution_status == ExecutionStatus::Pending
            &&& proposal.votes_for == 0
            &&& proposal.votes_against == 0
            &&& proposal.voting_deadline == now + 604_800
        }),
{
}

/// Within a group, proposals opened after different numbers of earlier
/// ones get different identifiers; and as long as each group has opened
/// fewer proposals than the stride, identifiers of different groups differ
/// too.
pub proof fn identifier_law(group_a: nat, opened_a: nat, group_b: nat, opened_b: nat)
    ensures
        group_a == group_b && opened_a != opened_b ==> proposal_id_for(group_a, opened_a)
            != proposal_id_for(group_b, opened_b),
        group_a != group_b && opened_a < PROPOSAL_ID_STRIDE && opened_b < PROPOSAL_ID_STRIDE
            ==> proposal_id_for(group_a, opened_a) != proposal_id_for(group_b, opened_b),
{
}

/// No two proposals of one group share an identifier: once a proposal has
/// been opened in a group, whatever is asked of the group afterwards (more
/// proposals among it), the next proposal opened in it gets an identifier
/// other than the first one's.
pub proof fn proposal_ids_never_repeat(
    group: StudyGroupModel,
    between: Seq<GroupStep>,
    proposer_a: Pubkey,
    proposer_b: Pubkey,
    type_a: ProposalType,
    type_b: ProposalType,
    description_a: Seq<char>,
    description_b: Seq<char>,
    now_a: int,
    now_b: int,
)
    ensures
        ({
            let first = proposal_on_creation(group, proposer_a, type_a, description_a, now_a);
            let later = group_after_steps(group_after_proposal(group), between);
            let second = proposal_on_creation(later, proposer_b, type_b, description_b, now_b);
            &&& later.group_id == group.group_id
            &&& later.proposal_count > group.proposal_count
            &&& second.group_id == first.group_id
            &&& second.proposal_id != first.proposal_id
        }),
    decreases between.len(),
{
    if between.len() > 0 {
        proposal_ids_never_repeat(
            group,
            between.drop_last(),
            proposer_a,
            proposer_b,
            type_a,
            type_b,
            description_a,
            description_b,
            now_a,
            now_b,
        );
    }
}

/// Before the deadline a proposal cannot be resolved, whatever its status.
/// At the deadline or after it, a pending proposal is resolved: executed
/// when the votes in favour reach the threshold and outnumber those
/// against, rejected otherwise.
pub proof fn execution_law(proposal: GovernanceProposalModel, now: int)
    ensures
        now < proposal.voting_deadline ==> execution_refusal(proposal, now) == Some(
            StudyGroupError::VotingStillActive,
        ),
        now >= proposal.voting_deadline && proposal.execution_status == ExecutionStatus::Pending
            ==> {
            &&& execution_refusal(proposal, now) is None
            &&& proposal_after_execution(proposal).execution_status == (if proposal.votes_for
                >= proposal.required_threshold && proposal.votes_for > proposal.votes_against {
                ExecutionStatus::Executed
            } else {
                ExecutionStatus::Rejected
            })
        },
{
}

/// Once a proposal has been resolved at `first`, resolving it again at any
/// moment from the deadline on is refused as already done.
pub proof fn second_execution_is_refused(
    proposal: GovernanceProposalModel,
    first: int,
    second: int,
)
    requires
        execution_refusal(proposal, first) is None,
        second >= proposal.voting_deadline,
    ensures
        execution_refusal(proposal_after_execution(proposal), second) == Some(
            StudyGroupError::ProposalAlreadyExecuted,
        ),
{
}

/// A resolved proposal is final: from then on every vote and every attempt
/// to resolve it is refused, whoever asks and whenever.
pub proof fn resolved_proposal_is_final(
    proposal: GovernanceProposalModel,
    voter: MemberProfileModel,
    now: int,
)
    requires
        proposal.execution_status != ExecutionStatus::Pending,
    ensures
        vote_refusal(proposal, voter, now) is Some,
        execution_refusal(proposal, now) is Some,
{
}

/// A vote that counts adds one to the side it is cast for and leaves the
/// other side, the threshold, the deadline and the status as they were.
pub proof fn vote_counts_once(proposal: GovernanceProposalModel, in_favour: bool)
    ensures
        ({
            let after = proposal_after_vote(proposal, in_favour);
            &&& after.votes_for + after.votes_against == proposal.votes_for
                + proposal.votes_against + 1
            &&& in_favour ==> after.votes_for == proposal.votes_for + 1
            &&& !in_favour ==> after.votes_against == proposal.votes_against + 1
            &&& after.required_threshold == proposal.required_threshold
            &&& after.voting_deadline == proposal.voting_deadline
            &&& after.execution_status == proposal.execution_status
        }),
{
}

// ---------------------------------------------------------------------
// Leaving and claiming
// ---------------------------------------------------------------------

/// A member who leaves gets back the stake less the penalty, rounded in
/// the pool's favour, while the pool gives up the whole stake and the head
/// count one member.
pub proof fn leave_law(group: StudyGroupModel, profile: MemberProfileModel)
    requires
        leave_refusal(profile) is None,
        leave_is_covered(group, profile),
    ensures
        exit_refund(profile.stake_amount, group.penalty_rate) == profile.stake_amount
            - profile.stake_amount * group.penalty_rate / 100,
        exit_penalty(profile.stake_amount, group.penalty_rate) + exit_refund(
            profile.stake_amount,
            group.penalty_rate,
        ) == profile.stake_amount,
        group_after_leave(group, profile).reward_pool == group.reward_pool
            - profile.stake_amount,
        group_after_leave(group, profile).current_members == group.current_members - 1,
        group_after_leave(group, profile).max_members == group.max_members,
        group.wf() ==> group_after_leave(group, profile).wf(),
        !profile_after_leave(profile).is_active,
        profile_after_leave(profile).stake_amount == profile.stake_amount,
{
}

/// At a penalty of at most a hundred percent the refund lies between
/// nothing and the whole stake; at the ten percent of a new group it is the
/// stake less a tenth of it, rounded in the pool's favour.
pub proof fn refund_is_within_the_stake(stake: nat, rate: nat)
    requires
        rate <= 100,
    ensures
        0 <= exit_refund(stake, rate) <= stake,
        rate == 0 ==> exit_refund(stake, rate) == stake,
        rate == 100 ==> exit_refund(stake, rate) == 0,
        rate == 10 ==> exit_refund(stake, rate) == stake - stake / 10,
{
    assert(0 <= stake * rate <= stake * 100) by (nonlinear_arith)
        requires
            rate <= 100,
    ;
}

/// A profile that has been closed stays closed: check-ins, tips, votes,
/// claims and a second leave are all refused for it. A tip is refused for
/// its amount where that is out of range, and for the closed profile
/// otherwise.
pub proof fn closed_profile_is_terminal(
    profile: MemberProfileModel,
    group: StudyGroupModel,
    proposal: GovernanceProposalModel,
    amount: nat,
    now: int,
)
    requires
        !profile.is_active,
    ensures
        tip_refusal(profile, amount) is Some,
        MIN_TIP <= amount <= MAX_TIP ==> tip_refusal(profile, amount) == Some(
            StudyGroupError::MemberNotActive,
        ),
        check_in_refusal(profile, now) == Some(StudyGroupError::MemberNotActive),
        vote_refusal(proposal, profile, now) == Some(StudyGroupError::MemberNotActive),
        claim_refusal(group, profile) == Some(StudyGroupError::MemberNotActive),
        leave_refusal(profile) == Some(StudyGroupError::MemberNotActive),
{
}

/// An active member's share is the score times the pool over a thousand,
/// rounded down; a share of nothing is refused, and any other is granted.
pub proof fn claim_law(group: StudyGroupModel, profile: MemberProfileModel)
    requires
        profile.is_active,
    ensures
        reward_share(profile.participation_score, group.reward_pool)
            == profile.participation_score * group.reward_pool / 1000,
        reward_share(profile.participation_score, group.reward_pool) == 0 ==> claim_refusal(
            group,
            profile,
        ) == Some(StudyGroupError::NoRewardsAvailable),
        reward_share(profile.participation_score, group.reward_pool) > 0 ==> claim_refusal(
            group,
            profile,
        ) is None,
{
}

} // verus!
