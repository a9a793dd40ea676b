use anchor_lang::prelude::Pubkey;
use study_groups::contexts::{CreateStudyGroup, Initialize};
use study_groups::errors::StudyGroupError;
use study_groups::registry::{create_study_group, initialize_program};
use study_groups::state::{byte_len, ProgramState, StudyGroup};

fn key(tag: u8) -> Pubkey {
    Pubkey::new_from_array([tag; 32])
}

fn blank_group() -> StudyGroup {
    StudyGroup {
        group_id: 0,
        creator: key(0),
        name: String::new(),
        subject: String::new(),
        description: String::new(),
        stake_requirement: 0,
        max_members: 0,
        current_members: 0,
        reward_pool: 0,
        created_at: 0,
        duration_days: 0,
        is_active: false,
        penalty_rate: 0,
        proposal_count: 41,
    }
}

fn creation(total_groups: u64) -> CreateStudyGroup {
    CreateStudyGroup {
        study_group: blank_group(),
        program_state: ProgramState {
            admin: key(9),
            total_groups,
            total_members: 0,
            is_initialized: true,
        },
        creator: key(1),
    }
}

fn create(
    ctx: &mut CreateStudyGroup,
    name: &str,
    description: &str,
    stake: u64,
    max_members: u8,
) -> Result<study_groups::events::StudyGroupCreated, StudyGroupError> {
    create_study_group(
        ctx,
        name.to_string(),
        "Algebra".to_string(),
        description.to_string(),
        stake,
        max_members,
        30,
        1_700_000_000,
    )
}

#[test]
fn initialize_sets_admin_and_clears_counters() {
    let mut ctx = Initialize {
        program_state: ProgramState {
            admin: key(0),
            total_groups: 17,
            total_members: 4,
            is_initialized: false,
        },
        admin: key(7),
    };
    assert_eq!(initialize_program(&mut ctx), Ok(()));
    assert_eq!(
        ctx.program_state,
        ProgramState { admin: key(7), total_groups: 0, total_members: 0, is_initialized: true }
    );
    assert_eq!(ctx.admin, key(7));
}

#[test]
fn create_fills_the_group_and_counts_it() {
    let mut ctx = creation(3);
    let event = create(&mut ctx, "Linear algebra", "Weekly problem sets", 10_000_000, 10).unwrap();
    assert_eq!(
        ctx.study_group,
        StudyGroup {
            group_id: 3,
            creator: key(1),
            name: "Linear algebra".to_string(),
            subject: "Algebra".to_string(),
            description: "Weekly problem sets".to_string(),
            stake_requirement: 10_000_000,
            max_members: 10,
            current_members: 0,
            reward_pool: 0,
            created_at: 1_700_000_000,
            duration_days: 30,
            is_active: true,
            penalty_rate: 10,
            proposal_count: 0,
        }
    );
    assert_eq!(ctx.program_state.total_groups, 4);
    assert_eq!(ctx.program_state.total_members, 0);
    assert_eq!(ctx.program_state.admin, key(9));
    assert_eq!(event.group_id, 3);
    assert_eq!(event.creator, key(1));
    assert_eq!(event.name, "Linear algebra");
    assert_eq!(event.stake_requirement, 10_000_000);
}

#[test]
fn consecutive_groups_get_consecutive_ids() {
    let mut ctx = creation(0);
    let first = create(&mut ctx, "a", "", 10_000_000, 2).unwrap();
    let second = create(&mut ctx, "b", "", 10_000_000, 2).unwrap();
    assert_eq!(first.group_id, 0);
    assert_eq!(second.group_id, 1);
    assert_eq!(ctx.program_state.total_groups, 2);
}

#[test]
fn name_of_fifty_bytes_is_accepted_and_fifty_one_refused() {
    let mut ctx = creation(0);
    assert!(create(&mut ctx, &"n".repeat(50), "", 10_000_000, 2).is_ok());
    let mut ctx = creation(0);
    let before = ctx.clone();
    assert_eq!(
        create(&mut ctx, &"n".repeat(51), "", 10_000_000, 2),
        Err(StudyGroupError::NameTooLong)
    );
    assert_eq!(ctx, before);
}

#[test]
fn name_length_is_counted_in_bytes() {
    // 26 two-byte characters: 26 characters but 52 bytes.
    let name = "é".repeat(26);
    assert_eq!(byte_len(&name), 52);
    let mut ctx = creation(0);
    assert_eq!(create(&mut ctx, &name, "", 10_000_000, 2), Err(StudyGroupError::NameTooLong));
    let mut ctx = creation(0);
    assert!(create(&mut ctx, &"é".repeat(25), "", 10_000_000, 2).is_ok());
}

#[test]
fn description_limit_is_five_hundred_bytes() {
    let mut ctx = creation(0);
    assert!(create(&mut ctx, "g", &"d".repeat(500), 10_000_000, 2).is_ok());
    let mut ctx = creation(5);
    let before = ctx.clone();
    assert_eq!(
        create(&mut ctx, "g", &"d".repeat(501), 10_000_000, 2),
        Err(StudyGroupError::DescriptionTooLong)
    );
    assert_eq!(ctx, before);
}

#[test]
fn group_size_must_lie_between_two_and_fifty() {
    for size in [0u8, 1, 51, 255] {
        let mut ctx = creation(0);
        let before = ctx.clone();
        assert_eq!(
            create(&mut ctx, "g", "", 10_000_000, size),
            Err(StudyGroupError::InvalidMaxMembers)
        );
        assert_eq!(ctx, before);
    }
    for size in [2u8, 50] {
        let mut ctx = creation(0);
        assert!(create(&mut ctx, "g", "", 10_000_000, size).is_ok());
        assert_eq!(ctx.study_group.max_members, size);
    }
}

#[test]
fn stake_below_the_minimum_is_refused() {
    let mut ctx = creation(0);
    let before = ctx.clone();
    assert_eq!(create(&mut ctx, "g", "", 9_999_999, 2), Err(StudyGroupError::StakeTooLow));
    assert_eq!(ctx, before);
    assert!(create(&mut ctx, "g", "", 10_000_000, 2).is_ok());
}

#[test]
fn creation_rules_are_tried_in_order() {
    let long_name = "n".repeat(51);
    let long_description = "d".repeat(501);
    let mut ctx = creation(0);
    assert_eq!(
        create(&mut ctx, &long_name, &long_description, 0, 0),
        Err(StudyGroupError::NameTooLong)
    );
    assert_eq!(
        create(&mut ctx, "g", &long_description, 0, 0),
        Err(StudyGroupError::DescriptionTooLong)
    );
    assert_eq!(create(&mut ctx, "g", "", 0, 0), Err(StudyGroupError::InvalidMaxMembers));
    assert_eq!(create(&mut ctx, "g", "", 0, 2), Err(StudyGroupError::StakeTooLow));
    assert_eq!(ctx.program_state.total_groups, 0);
}

#[test]
fn error_messages_read_as_sentences() {
    let expected = [
        (StudyGroupError::NameTooLong, "Group name is too long"),
        (StudyGroupError::DescriptionTooLong, "Description is too long"),
        (StudyGroupError::InvalidMaxMembers, "Invalid max members count"),
        (StudyGroupError::StakeTooLow, "Stake amount is too low"),
        (StudyGroupError::GroupNotActive, "Group is not active"),
        (StudyGroupError::GroupFull, "Group is full"),
        (StudyGroupError::MemberNotActive, "Member is not active"),
        (StudyGroupError::AlreadyCheckedInToday, "Already checked in today"),
        (StudyGroupError::TipTooSmall, "Tip amount is too small"),
        (StudyGroupError::TipTooLarge, "Tip amount is too large"),
        (StudyGroupError::VotingPeriodEnded, "Voting period has ended"),
        (StudyGroupError::ProposalAlreadyExecuted, "Proposal already executed"),
        (StudyGroupError::VotingStillActive, "Voting is still active"),
        (StudyGroupError::NoRewardsAvailable, "No rewards available"),
    ];
    for (error, text) in expected {
        assert_eq!(error.message(), text);
    }
}

#[test]
fn cloned_records_keep_their_keys() {
    let ctx = creation(2);
    let copy = ctx.clone();
    assert_eq!(copy.creator, key(1));
    assert_eq!(copy.program_state.admin, key(9));
    assert_ne!(copy.creator, copy.program_state.admin);
}
