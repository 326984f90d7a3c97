//! Project creation and its milestone schedule.
//!
//! The schedule is an arithmetic progression: milestone `i` (1-indexed) owes
//! `step * i` where `step = target / (1 + 2 + ... + count)`, and whatever
//! integer truncation leaves unassigned is added to the last milestone, so
//! the amounts always sum to the funding target exactly.

use crate::state::{FundingStage, Milestone, Project, ProjectCreated, ProjectMeta, SDGGoals};
use vstd::arithmetic::div_mod::{
    lemma_div_by_multiple, lemma_fundamental_div_mod, lemma_mod_bound,
};
use vstd::arithmetic::mul::{
    lemma_mul_inequality, lemma_mul_is_commutative, lemma_mul_is_distributive_add,
    lemma_mul_upper_bound,
};
use vstd::prelude::*;

verus! {

/// The `n`-th triangular number `1 + 2 + ... + n`.
pub open spec fn tri(n: int) -> int
    decreases n,
{
    if n <= 0 {
        0
    } else {
        tri(n - 1) + n
    }
}

/// Twice the `n`-th triangular number is `n * (n + 1)`.
proof fn lemma_tri_doubled(n: int)
    requires
        n >= 0,
    ensures
        2 * tri(n) == n * (n + 1),
        tri(n) >= n,
    decreases n,
{
    if n > 0 {
        lemma_tri_doubled(n - 1);
        assert((n - 1) * n + 2 * n == n * (n + 1)) by (nonlinear_arith);
    }
}

/// `tri(n)` is `n * (n + 1) / 2`, and is at least `n`.
pub proof fn lemma_tri_closed_form(n: int)
    requires
        n >= 0,
    ensures
        tri(n) == n * (n + 1) / 2,
        tri(n) >= n,
{
    lemma_tri_doubled(n);
    lemma_mul_is_commutative(2, tri(n));
    lemma_div_by_multiple(tri(n), 2);
}

/// Base amount of the schedule: the funding target divided by the triangular
/// weight of the milestone count (0 when there are no milestones).
pub open spec fn sched_step(target_amount: u64, milestone_count: u8) -> int {
    if milestone_count == 0 {
        0
    } else {
        target_amount as int / tri(milestone_count as int)
    }
}

/// The amount the schedule assigns to milestone `i` (0-indexed): `step *
/// (i + 1)` for all but the last, which absorbs the rounding shortfall so
/// the total is the target exactly.
pub open spec fn milestone_amount(target_amount: u64, milestone_count: u8, i: int) -> int {
    let k = sched_step(target_amount, milestone_count);
    let n = milestone_count as int;
    if i < n - 1 {
        k * (i + 1)
    } else {
        target_amount - k * tri(n - 1)
    }
}

/// Sum of the amounts of a milestone sequence.
pub open spec fn milestones_total(s: Seq<Milestone>) -> int
    decreases s.len(),
{
    if s.len() == 0 {
        0
    } else {
        milestones_total(s.drop_last()) + s.last().amount
    }
}

/// Builds the milestone schedule for a funding target: `milestone_count`
/// milestones, none achieved, amounts non-decreasing and summing exactly to
/// `target_amount` (a zero count yields an empty schedule).
pub fn calculate_milestones(target_amount: u64, milestone_count: u8) -> (v: Vec<Milestone>)
    ensures
        v@.len() == milestone_count as int,
        forall|i: int|
            0 <= i < v@.len() ==> v@[i].amount == milestone_amount(
                target_amount,
                milestone_count,
                i,
            ),
        forall|i: int| 0 <= i < v@.len() ==> !v@[i].is_achieved,
        milestone_count > 0 ==> milestones_total(v@) == target_amount,
        milestone_count == 0 ==> milestones_total(v@) == 0,
        forall|i: int, j: int| 0 <= i <= j < v@.len() ==> v@[i].amount <= v@[j].amount,
{
    let mut v: Vec<Milestone> = Vec::new();
    if milestone_count == 0 {
        return v;
    }
    let n: u64 = milestone_count as u64;
    proof {
        lemma_mul_upper_bound(n as int, 255, n as int + 1, 256);
        lemma_tri_closed_form(n as int);
    }
    let total_weight: u64 = n * (n + 1) / 2;
    let step: u64 = target_amount / total_weight;
    proof {
        lemma_fundamental_div_mod(target_amount as int, total_weight as int);
        lemma_mod_bound(target_amount as int, total_weight as int);
        lemma_mul_is_commutative(total_weight as int, step as int);
        assert(step * total_weight <= target_amount);
    }
    let mut i: u64 = 1;
    while i < n
        invariant
            1 <= i <= n,
            n == milestone_count as u64,
            milestone_count > 0,
            total_weight == tri(n as int),
            total_weight >= n,
            step == sched_step(target_amount, milestone_count),
            step * total_weight <= target_amount,
            v@.len() == i - 1,
            forall|j: int|
                0 <= j < v@.len() ==> v@[j].amount == step * (j + 1) && !v@[j].is_achieved,
            milestones_total(v@) == step * tri(i as int - 1),
        decreases n - i,
    {
        proof {
            lemma_mul_inequality(i as int, total_weight as int, step as int);
            lemma_mul_is_commutative(i as int, step as int);
            lemma_mul_is_commutative(total_weight as int, step as int);
        }
        let amount: u64 = step * i;
        let ghost pre = v@;
        v.push(Milestone { amount, is_achieved: false });
        proof {
            assert(v@.drop_last() =~= pre);
            lemma_mul_is_distributive_add(step as int, tri(i as int - 1), i as int);
        }
        i = i + 1;
    }
    proof {
        // tri(n) == tri(n - 1) + n, so total_weight - n is the weight of the
        // first n - 1 milestones, and their sum stays within the target.
        assert(tri(n as int) == tri(n as int - 1) + n);
        lemma_tri_closed_form(n as int - 1);
        lemma_mul_inequality(tri(n as int - 1), tri(n as int), step as int);
        lemma_mul_is_commutative(tri(n as int - 1), step as int);
        lemma_mul_is_commutative(total_weight as int, step as int);
    }
    let sum_first: u64 = step * (total_weight - n);
    let last_amount: u64 = target_amount - sum_first;
    let ghost pre = v@;
    v.push(Milestone { amount: last_amount, is_achieved: false });
    proof {
        assert(v@.drop_last() =~= pre);
        // The last amount is at least step * n, hence at least every earlier
        // amount.
        lemma_mul_is_distributive_add(step as int, tri(n as int - 1), n as int);
        assert forall|i: int, j: int| 0 <= i <= j < v@.len() implies v@[i].amount
            <= v@[j].amount by {
            if j < n - 1 {
                lemma_mul_inequality(i + 1, j + 1, step as int);
                lemma_mul_is_commutative(i + 1, step as int);
                lemma_mul_is_commutative(j + 1, step as int);
            } else if i < n - 1 {
                lemma_mul_inequality(i + 1, n as int, step as int);
                lemma_mul_is_commutative(i + 1, step as int);
                lemma_mul_is_commutative(n as int, step as int);
            }
        }
    }
    v
}

/// Creates a project for `owner` in `round` with a fresh milestone schedule:
/// all counters start at zero, the project starts un-whitelisted in the
/// planning stage, and the creation notification is returned for the host to
/// deliver.
pub fn create_project(
    project_id: u64,
    owner: u64,
    round: u64,
    target_amount: u64,
    milestone_count: u8,
    title: String,
    description: String,
    sdg_goals: Vec<SDGGoals>,
    project_image_metadata_uri: String,
    timestamp: i64,
) -> (r: (Project, ProjectMeta, ProjectCreated))
    ensures
        r.0.project_id == project_id,
        r.0.round == round,
        r.0.owner == owner,
        r.0.target_amount == target_amount,
        r.0.area == 0,
        r.0.current_funding == 0,
        r.0.matching_pool == 0,
        r.0.matching_unlocked == 0,
        r.0.pool_distributed == 0,
        !r.0.is_whitelisted,
        !r.0.has_withdrawn,
        r.0.milestone_count == milestone_count,
        r.0.wf(),
        forall|i: int|
            0 <= i < r.0.milestones@.len() ==> r.0.milestones@[i].amount == milestone_amount(
                target_amount,
                milestone_count,
                i,
            ),
        forall|i: int| 0 <= i < r.0.milestones@.len() ==> !r.0.milestones@[i].is_achieved,
        milestone_count > 0 ==> milestones_total(r.0.milestones@) == target_amount,
        forall|i: int, j: int|
            0 <= i <= j < r.0.milestones@.len() ==> r.0.milestones@[i].amount
                <= r.0.milestones@[j].amount,
        r.1.project == project_id,
        r.1.title == title,
        r.1.description == description,
        r.1.image_metadata_uri == project_image_metadata_uri,
        r.1.funding_stage == FundingStage::Planning,
        r.1.sdg_goals == sdg_goals,
        r.2 == (ProjectCreated { project: project_id, owner, target_amount, milestone_count, timestamp }),
{
    let milestones = calculate_milestones(target_amount, milestone_count);
    let project = Project {
        project_id,
        round,
        owner,
        target_amount,
        area: 0,
        current_funding: 0,
        matching_pool: 0,
        matching_unlocked: 0,
        pool_distributed: 0,
        is_whitelisted: false,
        has_withdrawn: false,
        milestone_count,
        milestones,
    };
    let meta = ProjectMeta {
        project: project_id,
        title,
        description,
        image_metadata_uri: project_image_metadata_uri,
        funding_stage: FundingStage::Planning,
        sdg_goals,
    };
    let event = ProjectCreated { project: project_id, owner, target_amount, milestone_count, timestamp };
    (project, meta, event)
}

/// Overwrites the project's whitelist flag; an authorized caller may set it
/// either way.
pub fn update_project_whitelist(project: &mut Project, is_whitelisted: bool)
    ensures
        *final(project) == (Project { is_whitelisted, ..*old(project) }),
{
    project.is_whitelisted = is_whitelisted;
}

/// Moves the project to `new_stage`. Entering the active stage also
/// whitelists the project and (re)activates its round; any other stage
/// changes only the metadata record.
pub fn change_project_funding_stage(
    project_meta: &mut ProjectMeta,
    project: &mut Project,
    round: &mut crate::state::FundingRound,
    new_stage: FundingStage,
)
    ensures
        final(project_meta).funding_stage == new_stage,
        final(project_meta).project == old(project_meta).project,
        final(project_meta).title == old(project_meta).title,
        final(project_meta).description == old(project_meta).description,
        final(project_meta).image_metadata_uri == old(project_meta).image_metadata_uri,
        final(project_meta).sdg_goals == old(project_meta).sdg_goals,
        new_stage == FundingStage::Active ==> *final(project) == (Project {
            is_whitelisted: true,
            ..*old(project)
        }) && *final(round) == (crate::state::FundingRound { is_active: true, ..*old(round) }),
        new_stage != FundingStage::Active ==> *final(project) == *old(project) && *final(round)
            == *old(round),
{
    project_meta.funding_stage = new_stage;
    if new_stage == FundingStage::Active {
        project.is_whitelisted = true;
        round.is_active = true;
    }
}

} // verus!
