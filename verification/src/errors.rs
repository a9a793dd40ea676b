//! Why an operation is refused.

use vstd::prelude::*;

verus! {

/// A rule of the system that an operation's inputs or the current state
/// break. A refused operation changes nothing and asks nothing of the
/// transfer rail.
#[derive(Clone, Copy, Debug, PartialEq, Eq)]
pub enum StudyGroupError {
    NameTooLong,
    DescriptionTooLong,
    InvalidMaxMembers,
    StakeTooLow,
    GroupNotActive,
    GroupFull,
    MemberNotActive,
    AlreadyCheckedInToday,
    TipTooSmall,
    TipTooLarge,
    VotingPeriodEnded,
    ProposalAlreadyExecuted,
    VotingStillActive,
    NoRewardsAvailable,
}

impl StudyGroupError {
    /// The sentence shown to a user for each rule.
    pub open spec fn text(self) -> Seq<char> {
        match self {
            StudyGroupError::NameTooLong => "Group name is too long"@,
            StudyGroupError::DescriptionTooLong => "Description is too long"@,
            StudyGroupError::InvalidMaxMembers => "Invalid max members count"@,
            StudyGroupError::StakeTooLow => "Stake amount is too low"@,
            StudyGroupError::GroupNotActive => "Group is not active"@,
            StudyGroupError::GroupFull => "Group is full"@,
            StudyGroupError::MemberNotActive => "Member is not active"@,
            StudyGroupError::AlreadyCheckedInToday => "Already checked in today"@,
            StudyGroupError::TipTooSmall => "Tip amount is too small"@,
            StudyGroupError::TipTooLarge => "Tip amount is too large"@,
            StudyGroupError::VotingPeriodEnded => "Voting period has ended"@,
            StudyGroupError::ProposalAlreadyExecuted => "Proposal already executed"@,
            StudyGroupError::VotingStillActive => "Voting is still active"@,
            StudyGroupError::NoRewardsAvailable => "No rewards available"@,
        }
    }

    /// The user-facing message of this error.
    pub fn message(&self) -> (msg: &'static str)
        ensures
            msg@ == self.text(),
    {
        match self {
            StudyGroupError::NameTooLong => "Group name is too long",
            StudyGroupError::DescriptionTooLong => "Description is too long",
            StudyGroupError::InvalidMaxMembers => "Invalid max members count",
            StudyGroupError::StakeTooLow => "Stake amount is too low",
            StudyGroupError::GroupNotActive => "Group is not active",
            StudyGroupError::GroupFull => "Group is full",
            StudyGroupError::MemberNotActive => "Member is not active",
            StudyGroupError::AlreadyCheckedInToday => "Already checked in today",
            StudyGroupError::TipTooSmall => "Tip amount is too small",
            StudyGroupError::TipTooLarge => "Tip amount is too large",
            StudyGroupError::VotingPeriodEnded => "Voting period has ended",
            StudyGroupError::ProposalAlreadyExecuted => "Proposal already executed",
            StudyGroupError::VotingStillActive => "Voting is still active",
            StudyGroupError::NoRewardsAvailable => "No rewards available",
        }
    }
}

/// Why an operation that moves funds did not take effect.
#[derive(Clone, Copy, Debug, PartialEq, Eq)]
pub enum Abort {
    /// A rule refused the operation before any transfer was asked for.
    Refused(StudyGroupError),
    /// Every rule was met, but the rail reported that nothing moved.
    TransferFailed,
}

} // verus!
