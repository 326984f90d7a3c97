//! Matching-pool settlement: pays a project the gap between its target
//! allocation and what it has already received.
//!
//! The target allocation is recomputed in full on every call —
//! `matching_pool * area^2 / denom_area^2` in 128-bit arithmetic — so the
//! call is idempotent in effect: repeated settlement only ever pays the
//! incremental difference, never reduces what was unlocked, and never pays
//! out more than the project's matching-pool budget.

use crate::error::AnectosError;
use crate::state::{FundingRound, Project};
use vstd::prelude::*;

verus! {

/// The denominator area of the allocation ratio: the round's saturation
/// target `area_max` when one is set and exceeds the round's area, else the
/// round's own area.
pub open spec fn denom_area(round: FundingRound) -> int {
    if round.area_max > 0 {
        if round.area >= round.area_max {
            round.area as int
        } else {
            round.area_max as int
        }
    } else {
        round.area as int
    }
}

/// True when the 128-bit computation of the target allocation would
/// overflow; such a settlement is refused rather than wrapped.
pub open spec fn settle_overflows(round: FundingRound, project: Project) -> bool {
    ||| project.area * project.area > u128::MAX
    ||| denom_area(round) * denom_area(round) > u128::MAX
    ||| project.matching_pool * (project.area * project.area) > u128::MAX
}

/// The absolute allocation the project is owed at this point in time:
/// its matching-pool budget scaled by the squared ratio of its area to the
/// denominator area, truncating toward zero.
pub open spec fn target_allocation(round: FundingRound, project: Project) -> int {
    project.matching_pool * (project.area * project.area) / (denom_area(round) * denom_area(
        round,
    ))
}

/// What one settlement call pays out: the gap between the target allocation
/// and what is already unlocked, clamped to the round vault's balance and to
/// what is left of the project's matching-pool budget; zero when the target
/// is already met.
pub open spec fn settle_delta(round: FundingRound, project: Project, vault_balance: u64) -> int {
    let alloc = target_allocation(round, project);
    let gap = alloc - project.matching_unlocked;
    let pool_remaining = project.matching_pool - project.pool_distributed;
    let capped = if gap <= vault_balance { gap } else { vault_balance as int };
    let clamped = if capped <= pool_remaining {
        capped
    } else {
        pool_remaining
    };
    if alloc <= project.matching_unlocked {
        0
    } else {
        clamped
    }
}

/// Settles the project's matching allocation against its round: computes the
/// target allocation and books the incremental gap, clamped to the round
/// vault's balance and the remaining budget. Returns the amount the host
/// must now transfer from the round vault to the project vault (possibly 0).
///
/// A round or project without area, or a project without a budget, is a
/// successful no-op; a computation that would overflow 128 bits is refused
/// with `InvalidAmount`; a refused call mutates nothing. `pool_distributed`
/// never decreases and never exceeds `matching_pool`, over any sequence of
/// calls.
pub fn settle_matching_for_project(
    round: &FundingRound,
    project: &mut Project,
    round_vault_balance: u64,
) -> (r: Result<u64, AnectosError>)
    requires
        old(project).wf(),
    ensures
        final(project).wf(),
        r is Err ==> *final(project) == *old(project),
        round.area == 0 || old(project).area == 0 || old(project).matching_pool == 0 ==> r
            == Ok::<u64, AnectosError>(0u64) && *final(project) == *old(project),
        !(round.area == 0 || old(project).area == 0 || old(project).matching_pool == 0)
            && settle_overflows(*round, *old(project)) ==> r == Err::<u64, AnectosError>(
            AnectosError::InvalidAmount,
        ),
        !(round.area == 0 || old(project).area == 0 || old(project).matching_pool == 0)
            && !settle_overflows(*round, *old(project)) ==> r == Ok::<u64, AnectosError>(
            settle_delta(*round, *old(project), round_vault_balance) as u64,
        ) && *final(project) == (Project {
            matching_unlocked: (old(project).matching_unlocked + settle_delta(
                *round,
                *old(project),
                round_vault_balance,
            )) as u64,
            pool_distributed: (old(project).pool_distributed + settle_delta(
                *round,
                *old(project),
                round_vault_balance,
            )) as u64,
            ..*old(project)
        }),
        final(project).pool_distributed >= old(project).pool_distributed,
        final(project).pool_distributed <= final(project).matching_pool,
        final(project).matching_unlocked >= old(project).matching_unlocked,
{
    let round_area = round.area;
    let denom: u128 = if round.area_max > 0 {
        if round_area >= round.area_max {
            round_area
        } else {
            round.area_max
        }
    } else {
        round_area
    };
    let proj_area = project.area;
    let pool_total = project.matching_pool;
    if round_area == 0 || proj_area == 0 || pool_total == 0 {
        return Ok(0);
    }
    let num = match proj_area.checked_mul(proj_area) {
        Some(v) => v,
        None => {
            return Err(AnectosError::InvalidAmount);
        },
    };
    let den = match denom.checked_mul(denom) {
        Some(v) => v,
        None => {
            return Err(AnectosError::InvalidAmount);
        },
    };
    let prod = match (pool_total as u128).checked_mul(num) {
        Some(v) => v,
        None => {
            return Err(AnectosError::InvalidAmount);
        },
    };
    proof {
        assert(den >= 1) by (nonlinear_arith)
            requires
                den == denom * denom,
                denom >= 1,
        ;
    }
    let alloc = prod / den;
    let already = project.matching_unlocked as u128;
    if alloc <= already {
        return Ok(0);
    }
    let mut delta = alloc - already;
    let vault = round_vault_balance as u128;
    if delta > vault {
        delta = vault;
    }
    let pool_remaining = (project.matching_pool - project.pool_distributed) as u128;
    if delta > pool_remaining {
        delta = pool_remaining;
    }
    if delta == 0 {
        return Ok(0);
    }
    let delta64 = delta as u64;
    project.matching_unlocked = project.matching_unlocked + delta64;
    project.pool_distributed = project.pool_distributed + delta64;
    Ok(delta64)
}

} // verus!
