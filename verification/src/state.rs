//! The ledger's records and notification events.
//!
//! Accounts are identified by plain `u64` ids; deriving an id from a tag and
//! a parent id is the host ledger's addressing scheme and stays outside the
//! library. Each record type carries a well-formedness predicate that the
//! constructors establish and every operation preserves.

use vstd::prelude::*;

verus! {

/// A funding threshold of a project. Once `is_achieved` turns true it never
/// turns back.
#[derive(Clone, Copy, Debug, PartialEq, Eq, Structural)]
pub struct Milestone {
    pub amount: u64,
    pub is_achieved: bool,
}

/// A project inside a funding round: its identity, its funding counters and
/// its milestone schedule.
#[derive(Clone, Debug)]
pub struct Project {
    /// Id of the project record itself.
    pub project_id: u64,
    /// Id of the funding round the project belongs to.
    pub round: u64,
    /// Id of the account allowed to withdraw.
    pub owner: u64,
    /// The funding goal the milestone schedule sums to.
    pub target_amount: u64,
    /// Accumulated quadratic area: the sum over contributors of the integer
    /// square root of their running totals. Never decreases.
    pub area: u128,
    /// Net contribution funds currently held for the project.
    pub current_funding: u64,
    /// The project's own matching-pool budget.
    pub matching_pool: u64,
    /// Matching funds already released to the project and not yet withdrawn.
    pub matching_unlocked: u64,
    /// Matching funds paid out of the pool over the project's lifetime.
    pub pool_distributed: u64,
    pub is_whitelisted: bool,
    pub has_withdrawn: bool,
    /// Fixed length of `milestones`.
    pub milestone_count: u8,
    pub milestones: Vec<Milestone>,
}

impl Project {
    /// Well-formedness: the milestone list has its declared length, and the
    /// matching counters respect `matching_unlocked <= pool_distributed <=
    /// matching_pool` (settlement raises the first two together, withdrawal
    /// lowers only the first).
    pub open spec fn wf(self) -> bool {
        &&& self.milestones.len() == self.milestone_count as int
        &&& self.matching_unlocked <= self.pool_distributed
        &&& self.pool_distributed <= self.matching_pool
    }
}

/// A time-boxed funding round holding the round-level matching budget and the
/// aggregated quadratic area of all its projects.
#[derive(Clone, Copy, Debug, PartialEq, Eq, Structural)]
pub struct FundingRound {
    /// Id of the account administering the round.
    pub owner: u64,
    /// Declared round-level matching budget.
    pub matching_pool: u64,
    /// Sum of all contribution amounts recorded in the round.
    pub total_donations: u64,
    /// Sum of per-contributor area contributions across all projects.
    pub area: u128,
    /// Optional saturation target for settlement; 0 disables it and the
    /// round's own area is used instead.
    pub area_max: u128,
    /// Incremented once per contribution call.
    pub contributor_count: u32,
    /// Id of the round's vault account, once created.
    pub round_vault: u64,
    /// Address-derivation nonce of the vault, recorded by the host.
    pub vault_bump: u8,
    pub is_active: bool,
    /// Reserved; no operation reads it.
    pub fee: u64,
}

/// Cumulative giving of one contributor to one project. One record per
/// unique (contributor, project) pair; created on first contribution and
/// never deleted.
#[derive(Clone, Copy, Debug, PartialEq, Eq, Structural)]
pub struct Contribution {
    pub contributor: u64,
    pub project: u64,
    pub total_contributed: u64,
}

impl Contribution {
    /// A fresh record for a pair that has not contributed yet.
    pub fn new(contributor: u64, project: u64) -> (r: Contribution)
        ensures
            r == (Contribution { contributor, project, total_contributed: 0u64 }),
    {
        Contribution { contributor, project, total_contributed: 0 }
    }
}

/// Lifecycle stage of a project, advanced by its owner.
#[derive(Clone, Copy, Debug, PartialEq, Eq, Structural)]
pub enum FundingStage {
    Planning,
    Active,
    Ongoing,
    Completed,
    Rejected,
}

/// UN sustainable-development goals a project can tag itself with.
#[derive(Clone, Copy, Debug, PartialEq, Eq, Structural)]
pub enum SDGGoals {
    NoPoverty,
    ZeroHunger,
    GoodHealthAndWellBeing,
    QualityEducation,
    GenderEquality,
    CleanWaterAndSanitation,
    AffordableAndCleanEnergy,
    DecentWorkAndEconomicGrowth,
    IndustryInnovationAndInfrastructure,
    ReducedInequalities,
    SustainableCitiesAndCommunities,
    ResponsibleConsumptionAndProduction,
    ClimateAction,
    LifeBelowWater,
    LifeOnLand,
    PeaceJusticeAndStrongInstitutions,
    PartnershipsForTheGoals,
}

/// Descriptive metadata of a project, stored beside the accounting record.
#[derive(Clone, Debug)]
pub struct ProjectMeta {
    pub project: u64,
    pub title: String,
    pub description: String,
    pub image_metadata_uri: String,
    pub funding_stage: FundingStage,
    pub sdg_goals: Vec<SDGGoals>,
}

/// Descriptive metadata of a funding round.
#[derive(Clone, Debug)]
pub struct FundingRoundMeta {
    pub nft_metadata_uri: String,
    pub start_time: i64,
    pub end_time: i64,
}

impl FundingRoundMeta {
    /// Bytes a stored round-metadata record occupies: an 8-byte record tag,
    /// a 4-byte length prefix plus up to 200 bytes of metadata text, and the
    /// two 8-byte timestamps.
    pub fn space() -> (r: usize)
        ensures
            r == 228,
    {
        8 + 4 + 200 + 8 + 8
    }
}

/// Notification appended after a successful contribution.
#[derive(Clone, Copy, Debug, PartialEq, Eq, Structural)]
pub struct ContributionMade {
    pub project: u64,
    pub contributor: u64,
    pub amount: u64,
    pub new_total_funding: u64,
    pub timestamp: i64,
}

/// Notification appended after a project is created.
#[derive(Clone, Copy, Debug, PartialEq, Eq, Structural)]
pub struct ProjectCreated {
    pub project: u64,
    pub owner: u64,
    pub target_amount: u64,
    pub milestone_count: u8,
    pub timestamp: i64,
}

/// Notification appended after a milestone is marked achieved.
#[derive(Clone, Copy, Debug, PartialEq, Eq, Structural)]
pub struct MilestoneCompleted {
    pub project: u64,
    pub milestone_index: u8,
    pub milestone_amount: u64,
    pub timestamp: i64,
}

} // verus!
