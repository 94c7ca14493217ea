use vstd::prelude::*;

verus! {

/// An account or contract address. The ledger hands out addresses as opaque
/// handles that are only ever compared for equality, so the library holds the
/// number by which the host identifies one.
#[derive(Clone, Copy, Debug, PartialEq, Eq, Structural)]
pub struct Address {
    pub id: u64,
}

/// Contract error types
#[derive(Clone, Copy, Debug, PartialEq, Eq, Structural)]
pub enum ContractError {
    GrantNotFound,
    Unauthorized,
    MilestoneAlreadyApproved,
    QuorumNotReached,
    DeadlinePassed,
    InvalidInput,
    MilestoneNotSubmitted,
    AlreadyVoted,
    MilestoneNotFound,
    InvalidState,
    NoRefundableAmount,
    NotAllMilestonesApproved,
    AlreadyRegistered,
    MilestoneAlreadySubmitted,
    InsufficientStake,
    StakeNotFound,
    NotVerified,
    BatchEmpty,
    BatchTooLarge,
    MilestoneIndexOutOfBounds,
    MaxConditionsExceeded,
    TimerNotFound,
    LockupAlreadyExists,
    LockupNotFound,
    LockupAlreadyReleased,
    LockupAlreadyRevoked,
    LockupRevocationUnauthorized,
    NotYetUnlocked,
    DaoProposalNotFound,
    DaoProposalNotActive,
    DaoProposalVotingClosed,
    DaoProposalQuorumNotReached,
    DaoProposalRejected,
    DaoModeDisabled,
}

#[derive(Clone, Copy, Debug, PartialEq, Eq, Structural)]
pub enum MilestoneState {
    Pending,
    Submitted,
    Approved,
    Rejected,
}

/// A milestone of a grant; the ledger's maps of votes and reasons are held as
/// lists of (voter, value) pairs. Texts are held as the bytes the ledger stores.
#[derive(Clone, Debug, PartialEq, Eq)]
pub struct Milestone {
    pub idx: u32,
    pub description: Vec<u8>,
    pub amount: i128,
    pub state: MilestoneState,
    pub votes: Vec<(Address, bool)>,
    pub approvals: u32,
    pub rejections: u32,
    pub reasons: Vec<(Address, Vec<u8>)>,
    pub status_updated_at: u64,
    pub proof_url: Option<Vec<u8>>,
    pub submission_timestamp: u64,
}

#[derive(Clone, Copy, Debug, PartialEq, Eq, Structural)]
pub enum GrantStatus {
    Active,
    Cancelled,
    Completed,
}

#[derive(Clone, Copy, Debug, PartialEq, Eq, Structural)]
pub struct GrantFund {
    pub funder: Address,
    pub amount: i128,
}

/// A grant; texts are held as the bytes the ledger stores.
#[derive(Clone, Debug, PartialEq, Eq)]
pub struct Grant {
    pub id: u64,
    pub owner: Address,
    pub title: Vec<u8>,
    pub description: Vec<u8>,
    pub token: Address,
    pub status: GrantStatus,
    pub total_amount: i128,
    pub milestone_amount: i128,
    pub reviewers: Vec<Address>,
    pub total_milestones: u32,
    pub milestones_paid_out: u32,
    pub escrow_balance: i128,
    pub funders: Vec<GrantFund>,
    pub reason: Option<Vec<u8>>,
    pub timestamp: u64,
}

#[derive(Clone, Debug, PartialEq, Eq)]
pub struct ContributorProfile {
    pub contributor: Address,
    pub name: Vec<u8>,
    pub bio: Vec<u8>,
    pub skills: Vec<Vec<u8>>,
    pub github_url: Vec<u8>,
    pub registration_timestamp: u64,
    pub grants_count: u32,
    pub total_earned: i128,
    pub reputation_score: u64,
    pub milestones_completed: u32,
    pub milestones_rejected: u32,
}

#[derive(Clone, Copy, Debug, PartialEq, Eq, Structural)]
pub enum DelegationScope {
    Global,
    PerGrant(u64),
}

#[derive(Clone, Copy, Debug, PartialEq, Eq, Structural)]
pub struct Delegation {
    pub delegator: Address,
    pub delegate: Address,
    pub scope: DelegationScope,
    pub created_at: u64,
    pub expires_at: Option<u64>,
    pub revoked: bool,
    pub uses_remaining: Option<u32>,
}

#[derive(Clone, Copy, Debug, PartialEq, Eq, Structural)]
pub enum BadgeType {
    FirstMilestone,
    TenMilestones,
    FiftyMilestones,
    BronzeContributor,
    SilverContributor,
    GoldContributor,
    PlatinumContributor,
    DisputeWinner,
    PerfectGrant,
    BountyChampion,
    EarlyAdopter,
}

#[derive(Clone, Copy, Debug, PartialEq, Eq, Structural)]
pub struct BadgeCriteria {
    pub badge_type: BadgeType,
    pub required_milestones: Option<u32>,
    pub required_reputation: Option<u32>,
    pub required_grants: Option<u32>,
    pub one_time: bool,
}

#[derive(Clone, Copy, Debug, PartialEq, Eq, Structural)]
pub struct BadgeRecord {
    pub badge_type: BadgeType,
    pub recipient: Address,
    pub awarded_at: u64,
    pub grant_id: Option<u64>,
    pub milestone_idx: Option<u32>,
}

#[derive(Clone, Copy, Debug, PartialEq, Eq, Structural)]
pub enum RefundPolicyType {
    FullRefund,
    ProportionalToRemaining,
    TimeWeighted,
    PenaltyOnCancel,
    NoRefund,
}

#[derive(Clone, Copy, Debug, PartialEq, Eq, Structural)]
pub struct RefundPolicy {
    pub grant_id: u64,
    pub policy_type: RefundPolicyType,
    pub penalty_bps: u32,
    pub grace_period_ledgers: u32,
    pub min_refund_pct_bps: u32,
}

#[derive(Clone, Copy, Debug, PartialEq, Eq, Structural)]
pub struct RefundCalculation {
    pub gross_escrow: i128,
    pub funder_refund: i128,
    pub contributor_compensation: i128,
    pub penalty_amount: i128,
    pub policy_applied: RefundPolicyType,
}

#[derive(Clone, Copy, Debug, PartialEq, Eq, Structural)]
pub enum SnapshotTrigger {
    DisputeRaised,
    AdminRequest,
    MilestoneSubmission,
    PreUpgrade,
}

#[derive(Clone, Debug, PartialEq, Eq)]
pub struct StateSnapshot {
    pub id: u32,
    pub grant_id: u64,
    pub trigger: SnapshotTrigger,
    pub grant_status: GrantStatus,
    pub escrow_balance: i128,
    pub milestones_paid_out: u32,
    pub total_milestones: u32,
    pub milestone_states: Vec<MilestoneState>,
    pub captured_at: u64,
    pub captured_at_ledger: u32,
    pub captured_by: Address,
}

} // verus!

verus! {

/// The value a borrowed option points at.
pub open spec fn opt_deref<T>(o: Option<&T>) -> Option<T> {
    match o {
        Some(x) => Some(*x),
        None => None,
    }
}

} // verus!
