//! Fund release to the project owner: contribution funds plus unlocked
//! matching, never more.
//!
//! The amount is deducted from `current_funding` first and any remainder
//! from `matching_unlocked`, so the two balances together fall by exactly
//! the amount withdrawn. The host performs the vault transfer after a
//! successful call.

use crate::error::AnectosError;
use crate::state::Project;
use vstd::prelude::*;

verus! {

/// Releases `amount` to `caller`, who must be the project owner, provided
/// the sum of contribution funds and unlocked matching covers it and the
/// project vault (whose balance the host reports) holds it.
///
/// On success `current_funding + matching_unlocked` falls by exactly
/// `amount`; a withdrawal above that sum, or above the vault balance, never
/// succeeds, and a refused call mutates nothing.
pub fn distribute_funds_to_owner(
    project: &mut Project,
    caller: u64,
    amount: u64,
    vault_balance: u64,
) -> (r: Result<(), AnectosError>)
    requires
        old(project).wf(),
    ensures
        final(project).wf(),
        r is Err ==> *final(project) == *old(project),
        caller != old(project).owner ==> r == Err::<(), AnectosError>(AnectosError::Unauthorized),
        caller == old(project).owner && amount > old(project).current_funding + old(project).matching_unlocked ==> r == Err::<(), AnectosError>(AnectosError::InsufficientFunds),
        caller == old(project).owner && amount <= old(project).current_funding + old(project).matching_unlocked && vault_balance < amount ==> r == Err::<(), AnectosError>(
            AnectosError::InsufficientFunds,
        ),
        caller == old(project).owner && amount <= old(project).current_funding + old(project).matching_unlocked && vault_balance >= amount ==> r is Ok && *final(project) == (Project {
            current_funding: if amount <= old(project).current_funding {
                (old(project).current_funding - amount) as u64
            } else {
                0u64
            },
            matching_unlocked: if amount <= old(project).current_funding {
                old(project).matching_unlocked
            } else {
                (old(project).matching_unlocked - (amount - old(project).current_funding)) as u64
            },
            ..*old(project)
        }),
        amount > old(project).current_funding + old(project).matching_unlocked ==> r is Err,
        r is Ok ==> final(project).current_funding + final(project).matching_unlocked == old(project).current_funding + old(project).matching_unlocked - amount,
{
    if caller != project.owner {
        return Err(AnectosError::Unauthorized);
    }
    let covered = match project.current_funding.checked_add(project.matching_unlocked) {
        Some(total) => amount <= total,
        None => true,
    };
    if !covered {
        return Err(AnectosError::InsufficientFunds);
    }
    if vault_balance < amount {
        return Err(AnectosError::InsufficientFunds);
    }
    let take_from_current = if amount <= project.current_funding {
        amount
    } else {
        project.current_funding
    };
    project.current_funding = project.current_funding - take_from_current;
    let remaining = amount - take_from_current;
    if remaining > 0 {
        project.matching_unlocked = project.matching_unlocked - remaining;
    }
    Ok(())
}

} // verus!
