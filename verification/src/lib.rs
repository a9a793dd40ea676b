//! Study groups with staked membership.
//!
//! Members lock a stake to join a group, check in daily, tip each other,
//! vote on proposals, and either leave early (forfeiting a penalty to the
//! pool) or claim a share of the pool in proportion to their participation.
//!
//! Every operation is a verified transition over plain records. Moving
//! funds, reading the clock and publishing events are the host's business:
//! an operation is told the time and how the transfer rail answered, and
//! hands back the event to publish.

pub mod identity;
pub mod errors;
pub mod rail;
pub mod state;
pub mod events;
pub mod contexts;
pub mod membership;
pub mod reputation;
pub mod rewards;
pub mod governance;
pub mod registry;
pub mod laws;

pub use contexts::{
    ClaimRewards, CreateProposal, CreateStudyGroup, DailyCheckIn, ExecuteProposal, Initialize,
    JoinGroup, LeaveGroup, TipMember, VoteOnProposal,
};
pub use errors::{Abort, StudyGroupError};
pub use events::{
    DailyCheckInRecorded, MemberJoined, MemberLeft, MemberTipped, ProposalCreated,
    ProposalExecuted, RewardsClaimed, StudyGroupCreated, VoteCast,
};
pub use rail::{RailOutcome, TransferRequest};
pub use state::{
    ExecutionStatus, GovernanceProposal, MemberProfile, ProgramState, ProposalType, StudyGroup,
    TipCategory,
};
