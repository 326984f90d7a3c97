//! Milestone completion, gated by the ledger's own funding counter.
//!
//! The check reads `current_funding` out of the project record, never a
//! figure supplied by the caller, so nobody can claim an arbitrary funding
//! level to unlock a milestone early.

use crate::error::AnectosError;
use crate::state::{Milestone, MilestoneCompleted, Project};
use vstd::prelude::*;

verus! {

/// Every field of the two projects agrees except possibly the milestone
/// list.
pub open spec fn same_except_milestones(a: Project, b: Project) -> bool {
    &&& a.project_id == b.project_id
    &&& a.round == b.round
    &&& a.owner == b.owner
    &&& a.target_amount == b.target_amount
    &&& a.area == b.area
    &&& a.current_funding == b.current_funding
    &&& a.matching_pool == b.matching_pool
    &&& a.matching_unlocked == b.matching_unlocked
    &&& a.pool_distributed == b.pool_distributed
    &&& a.is_whitelisted == b.is_whitelisted
    &&& a.has_withdrawn == b.has_withdrawn
    &&& a.milestone_count == b.milestone_count
}

/// Marks milestone `milestone_index` of the project achieved, provided the
/// index is in bounds, the milestone is not yet achieved, and the project's
/// own cumulative funding has reached the milestone's amount. Exactly the
/// achieved flag of that one milestone changes, and an achieved flag never
/// turns back to false. A refused call mutates nothing.
pub fn complete_milestone(project: &mut Project, milestone_index: u8, timestamp: i64) -> (r:
    Result<MilestoneCompleted, AnectosError>)
    requires
        old(project).wf(),
    ensures
        final(project).wf(),
        r is Err ==> *final(project) == *old(project),
        milestone_index as int >= old(project).milestones@.len() ==> r == Err::<
            MilestoneCompleted,
            AnectosError,
        >(AnectosError::IndexOutOfBounds),
        (milestone_index as int) < old(project).milestones@.len() && old(project).milestones@[milestone_index as int].is_achieved ==> r == Err::<
            MilestoneCompleted,
            AnectosError,
        >(AnectosError::AlreadyCompleted),
        (milestone_index as int) < old(project).milestones@.len() && !old(project).milestones@[milestone_index as int].is_achieved && old(project).milestones@[milestone_index as int].amount > old(project).current_funding ==> r == Err::<
            MilestoneCompleted,
            AnectosError,
        >(AnectosError::InsufficientFunds),
        (milestone_index as int) < old(project).milestones@.len() && !old(project).milestones@[milestone_index as int].is_achieved && old(project).milestones@[milestone_index as int].amount <= old(project).current_funding ==> {
            &&& r == Ok::<MilestoneCompleted, AnectosError>(
                (MilestoneCompleted {
                    project: old(project).project_id,
                    milestone_index,
                    milestone_amount: old(project).milestones@[milestone_index as int].amount,
                    timestamp,
                }),
            )
            &&& final(project).milestones@ == old(project).milestones@.update(
                milestone_index as int,
                (Milestone {
                    amount: old(project).milestones@[milestone_index as int].amount,
                    is_achieved: true,
                }),
            )
        },
        same_except_milestones(*final(project), *old(project)),
        final(project).milestones@.len() == old(project).milestones@.len(),
        forall|j: int|
            0 <= j < old(project).milestones@.len() ==> final(project).milestones@[j].amount == old(project).milestones@[j].amount,
        forall|j: int|
            0 <= j < old(project).milestones@.len() && old(project).milestones@[j].is_achieved
                ==> final(project).milestones@[j].is_achieved,
{
    let index = milestone_index as usize;
    if index >= project.milestones.len() {
        return Err(AnectosError::IndexOutOfBounds);
    }
    let current = project.milestones[index];
    if current.is_achieved {
        return Err(AnectosError::AlreadyCompleted);
    }
    if current.amount > project.current_funding {
        return Err(AnectosError::InsufficientFunds);
    }
    project.milestones[index] = Milestone { amount: current.amount, is_achieved: true };
    Ok(
        MilestoneCompleted {
            project: project.project_id,
            milestone_index,
            milestone_amount: current.amount,
            timestamp,
        },
    )
}

} // verus!
