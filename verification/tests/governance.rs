use anchor_lang::prelude::Pubkey;
use study_groups::contexts::{CreateProposal, ExecuteProposal, VoteOnProposal};
use study_groups::errors::StudyGroupError;
use study_groups::events::{ProposalCreated, ProposalExecuted, VoteCast};
use study_groups::governance::{create_proposal, execute_proposal, vote_on_proposal};
use study_groups::state::{
    ExecutionStatus, GovernanceProposal, MemberProfile, ProposalType, StudyGroup,
};

const WEEK: i64 = 604_800;

fn id(tag: u8) -> Pubkey {
    Pubkey::new_from_array([tag; 32])
}

fn group_of(current_members: u8) -> StudyGroup {
    StudyGroup {
        group_id: 7,
        creator: id(1),
        name: "Go".to_string(),
        subject: "Games".to_string(),
        description: String::new(),
        stake_requirement: 10_000_000,
        max_members: 50,
        current_members,
        reward_pool: 0,
        created_at: 0,
        duration_days: 10,
        is_active: true,
        penalty_rate: 10,
        proposal_count: 0,
    }
}

fn unwritten_proposal() -> GovernanceProposal {
    GovernanceProposal {
        proposal_id: 0,
        proposer: id(0),
        group_id: 0,
        proposal_type: ProposalType::ChangeTopic,
        description: String::new(),
        votes_for: 0,
        votes_against: 0,
        voting_deadline: 0,
        execution_status: ExecutionStatus::Pending,
        required_threshold: 0,
    }
}

fn proposal(votes_for: u64, votes_against: u64, threshold: u64) -> GovernanceProposal {
    GovernanceProposal {
        proposal_id: 7_000,
        proposer: id(2),
        group_id: 7,
        proposal_type: ProposalType::AddResource,
        description: "Buy the book".to_string(),
        votes_for,
        votes_against,
        voting_deadline: 1_000_000,
        execution_status: ExecutionStatus::Pending,
        required_threshold: threshold,
    }
}

fn voter(is_active: bool) -> MemberProfile {
    MemberProfile {
        member: id(3),
        group_id: 7,
        stake_amount: 10_000_000,
        check_in_count: 0,
        current_streak: 0,
        total_tips_received: 0,
        participation_score: 0,
        join_date: 0,
        is_active,
        last_check_in: 0,
    }
}

fn proposing(members: u8) -> CreateProposal {
    CreateProposal { proposal: unwritten_proposal(), study_group: group_of(members), proposer: id(2) }
}

fn voting(proposal: GovernanceProposal, active: bool) -> VoteOnProposal {
    VoteOnProposal { proposal, member_profile: voter(active), voter: id(3) }
}

// ------------------------------------------------------------ creation

#[test]
fn create_proposal_fills_the_record() {
    let mut ctx = proposing(5);
    let event = create_proposal(
        &mut ctx,
        ProposalType::ModifyStake,
        "Halve the stake".to_string(),
        2_000,
    );
    assert_eq!(
        event,
        Ok(ProposalCreated {
            proposal_id: 7_000,
            proposer: id(2),
            group_id: 7,
            proposal_type: ProposalType::ModifyStake,
        })
    );
    assert_eq!(
        ctx.proposal,
        GovernanceProposal {
            proposal_id: 7_000,
            proposer: id(2),
            group_id: 7,
            proposal_type: ProposalType::ModifyStake,
            description: "Halve the stake".to_string(),
            votes_for: 0,
            votes_against: 0,
            voting_deadline: 2_000 + WEEK,
            execution_status: ExecutionStatus::Pending,
            required_threshold: 3,
        }
    );
    let mut counted = group_of(5);
    counted.proposal_count = 1;
    assert_eq!(ctx.study_group, counted);
}

#[test]
fn the_threshold_is_sixty_percent_rounded_down() {
    for (members, threshold) in
        [(0u8, 0u64), (1, 0), (2, 1), (3, 1), (4, 2), (5, 3), (9, 5), (10, 6), (49, 29), (50, 30), (255, 153)]
    {
        let mut ctx = proposing(members);
        create_proposal(&mut ctx, ProposalType::ChangeTopic, String::new(), 0).unwrap();
        assert_eq!(ctx.proposal.required_threshold, threshold);
    }
}

#[test]
fn the_identifier_adds_the_count_of_earlier_proposals() {
    let mut ctx = proposing(5);
    ctx.study_group.proposal_count = 12;
    ctx.proposal.proposal_id = 999;
    let event =
        create_proposal(&mut ctx, ProposalType::UpdateSchedule, String::new(), 0).unwrap();
    assert_eq!(event.proposal_id, 7_012);
    assert_eq!(ctx.proposal.proposal_id, 7_012);
    assert_eq!(ctx.study_group.proposal_count, 13);
}

#[test]
fn proposals_of_one_group_get_different_identifiers() {
    let mut group = group_of(5);
    let mut seen = Vec::new();
    for round in 0..5i64 {
        let mut ctx =
            CreateProposal { proposal: unwritten_proposal(), study_group: group, proposer: id(2) };
        let event =
            create_proposal(&mut ctx, ProposalType::ChangeTopic, String::new(), round).unwrap();
        assert!(!seen.contains(&event.proposal_id));
        seen.push(event.proposal_id);
        group = ctx.study_group;
    }
    assert_eq!(seen, vec![7_000, 7_001, 7_002, 7_003, 7_004]);
    assert_eq!(group.proposal_count, 5);
}

#[test]
fn a_refused_proposal_is_not_counted() {
    let mut ctx = proposing(5);
    ctx.study_group.proposal_count = 3;
    assert!(create_proposal(&mut ctx, ProposalType::ChangeTopic, "d".repeat(1001), 0).is_err());
    assert_eq!(ctx.study_group.proposal_count, 3);
    let event = create_proposal(&mut ctx, ProposalType::ChangeTopic, String::new(), 0).unwrap();
    assert_eq!(event.proposal_id, 7_003);
}

#[test]
fn creation_overwrites_whatever_the_record_held() {
    let mut ctx = proposing(10);
    ctx.proposal = proposal(9, 9, 9);
    ctx.proposal.execution_status = ExecutionStatus::Rejected;
    create_proposal(&mut ctx, ProposalType::ChangeTopic, "x".to_string(), -WEEK).unwrap();
    assert_eq!(ctx.proposal.votes_for, 0);
    assert_eq!(ctx.proposal.votes_against, 0);
    assert_eq!(ctx.proposal.voting_deadline, 0);
    assert_eq!(ctx.proposal.execution_status, ExecutionStatus::Pending);
    assert_eq!(ctx.proposal.required_threshold, 6);
    assert_eq!(ctx.proposal.description, "x");
    assert_eq!(ctx.proposal.proposal_id, 7_000);
}

#[test]
fn proposal_description_limit_is_a_thousand_bytes() {
    let mut ctx = proposing(5);
    assert!(create_proposal(&mut ctx, ProposalType::ChangeTopic, "d".repeat(1000), 0).is_ok());
    let mut ctx = proposing(5);
    ctx.study_group.proposal_count = 3;
    let before = ctx.clone();
    assert_eq!(
        create_proposal(&mut ctx, ProposalType::ChangeTopic, "d".repeat(1001), 0),
        Err(StudyGroupError::DescriptionTooLong)
    );
    assert_eq!(ctx, before);
}

// -------------------------------------------------------------- voting

#[test]
fn a_vote_in_favour_counts_once() {
    let mut ctx = voting(proposal(2, 1, 3), true);
    assert_eq!(
        vote_on_proposal(&mut ctx, true, 999_999),
        Ok(VoteCast { proposal_id: 7_000, voter: id(3), vote_choice: true })
    );
    assert_eq!(ctx.proposal, proposal(3, 1, 3));
}

#[test]
fn a_vote_against_counts_once() {
    let mut ctx = voting(proposal(2, 1, 3), true);
    assert_eq!(
        vote_on_proposal(&mut ctx, false, 0),
        Ok(VoteCast { proposal_id: 7_000, voter: id(3), vote_choice: false })
    );
    assert_eq!(ctx.proposal, proposal(2, 2, 3));
}

#[test]
fn an_inactive_member_cannot_vote() {
    let mut ctx = voting(proposal(2, 1, 3), false);
    let before = ctx.clone();
    assert_eq!(vote_on_proposal(&mut ctx, true, 0), Err(StudyGroupError::MemberNotActive));
    // Reported before the closed poll.
    assert_eq!(
        vote_on_proposal(&mut ctx, true, 2_000_000),
        Err(StudyGroupError::MemberNotActive)
    );
    assert_eq!(ctx, before);
}

#[test]
fn the_poll_closes_at_the_deadline() {
    let mut ctx = voting(proposal(2, 1, 3), true);
    let before = ctx.clone();
    assert_eq!(
        vote_on_proposal(&mut ctx, true, 1_000_000),
        Err(StudyGroupError::VotingPeriodEnded)
    );
    assert_eq!(
        vote_on_proposal(&mut ctx, false, 1_000_001),
        Err(StudyGroupError::VotingPeriodEnded)
    );
    assert_eq!(ctx, before);
}

#[test]
fn a_resolved_proposal_takes_no_votes() {
    for status in [ExecutionStatus::Executed, ExecutionStatus::Rejected] {
        let mut resolved = proposal(2, 1, 3);
        resolved.execution_status = status;
        let mut ctx = voting(resolved, true);
        let before = ctx.clone();
        assert_eq!(
            vote_on_proposal(&mut ctx, true, 10),
            Err(StudyGroupError::ProposalAlreadyExecuted)
        );
        assert_eq!(ctx, before);
    }
}

// ---------------------------------------------------------- resolution

#[test]
fn execution_before_the_deadline_is_refused() {
    let mut ctx = ExecuteProposal { proposal: proposal(5, 0, 3) };
    let before = ctx.clone();
    assert_eq!(execute_proposal(&mut ctx, 999_999), Err(StudyGroupError::VotingStillActive));
    assert_eq!(ctx, before);
}

#[test]
fn a_carried_proposal_is_executed_at_the_deadline() {
    let mut ctx = ExecuteProposal { proposal: proposal(3, 2, 3) };
    assert_eq!(
        execute_proposal(&mut ctx, 1_000_000),
        Ok(ProposalExecuted { proposal_id: 7_000, votes_for: 3, votes_against: 2 })
    );
    let mut expected = proposal(3, 2, 3);
    expected.execution_status = ExecutionStatus::Executed;
    assert_eq!(ctx.proposal, expected);
}

#[test]
fn a_proposal_below_the_threshold_is_rejected() {
    let mut ctx = ExecuteProposal { proposal: proposal(2, 0, 3) };
    assert_eq!(
        execute_proposal(&mut ctx, 1_500_000),
        Ok(ProposalExecuted { proposal_id: 7_000, votes_for: 2, votes_against: 0 })
    );
    let mut expected = proposal(2, 0, 3);
    expected.execution_status = ExecutionStatus::Rejected;
    assert_eq!(ctx.proposal, expected);
}

#[test]
fn a_tied_or_outvoted_proposal_is_rejected() {
    for (votes_for, votes_against) in [(4u64, 4u64), (4, 5), (0, 0)] {
        let mut ctx = ExecuteProposal { proposal: proposal(votes_for, votes_against, 0) };
        assert_eq!(
            execute_proposal(&mut ctx, 1_000_000),
            Ok(ProposalExecuted { proposal_id: 7_000, votes_for, votes_against })
        );
        assert_eq!(ctx.proposal.execution_status, ExecutionStatus::Rejected);
    }
}

#[test]
fn a_second_execution_is_refused() {
    for (votes_for, status) in [(5u64, ExecutionStatus::Executed), (1, ExecutionStatus::Rejected)] {
        let mut ctx = ExecuteProposal { proposal: proposal(votes_for, 0, 3) };
        assert!(execute_proposal(&mut ctx, 1_000_000).is_ok());
        assert_eq!(ctx.proposal.execution_status, status);
        let before = ctx.clone();
        assert_eq!(
            execute_proposal(&mut ctx, 1_000_000),
            Err(StudyGroupError::ProposalAlreadyExecuted)
        );
        assert_eq!(
            execute_proposal(&mut ctx, i64::MAX),
            Err(StudyGroupError::ProposalAlreadyExecuted)
        );
        assert_eq!(ctx, before);
    }
}

#[test]
fn a_proposal_runs_its_whole_course() {
    let mut opening = proposing(5);
    create_proposal(&mut opening, ProposalType::AddResource, "Add a forum".to_string(), 100)
        .unwrap();
    let mut poll = voting(opening.proposal, true);
    for choice in [true, true, false, true] {
        vote_on_proposal(&mut poll, choice, 100 + WEEK - 1).unwrap();
    }
    assert_eq!(
        vote_on_proposal(&mut poll, true, 100 + WEEK),
        Err(StudyGroupError::VotingPeriodEnded)
    );
    let mut closing = ExecuteProposal { proposal: poll.proposal };
    assert_eq!(
        execute_proposal(&mut closing, 100 + WEEK - 1),
        Err(StudyGroupError::VotingStillActive)
    );
    assert_eq!(
        execute_proposal(&mut closing, 100 + WEEK),
        Ok(ProposalExecuted { proposal_id: 7_000, votes_for: 3, votes_against: 1 })
    );
    assert_eq!(closing.proposal.execution_status, ExecutionStatus::Executed);
}
