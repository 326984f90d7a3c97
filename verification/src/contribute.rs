//! Contribution accounting: the incremental quadratic-area design.
//!
//! Area accrues the *marginal* square-root contribution of each deposit
//! relative to that contributor's running total, so a contributor who gives
//! N times contributes exactly the same total area as one who gives the sum
//! once. The host ledger moves the funds into the project vault before
//! calling in; this operation books the deposit or refuses it atomically.

use crate::error::AnectosError;
use crate::math::{isqrt, lemma_sqrt_floor_monotonic, sqrt_floor};
use crate::state::{Contribution, ContributionMade, FundingRound, Project};
use vstd::prelude::*;

verus! {

/// The area a deposit of `amount` adds on top of a running total of
/// `prev_total`: the growth of the integer square root of the contributor's
/// cumulative giving. Never negative, since the square root is monotonic.
pub open spec fn area_delta(prev_total: u64, amount: u64) -> int {
    sqrt_floor((prev_total + amount) as nat) - sqrt_floor(prev_total as nat)
}

/// True when booking the deposit would overflow one of the ledger's
/// counters. Overflow is a hard failure, never a silent wraparound.
pub open spec fn contribute_overflows(
    round: FundingRound,
    project: Project,
    record: Contribution,
    amount: u64,
) -> bool {
    ||| project.current_funding + amount > u64::MAX
    ||| record.total_contributed + amount > u64::MAX
    ||| round.total_donations + amount > u64::MAX
    ||| round.contributor_count + 1 > u32::MAX
    ||| project.area + area_delta(record.total_contributed, amount) > u128::MAX
    ||| round.area + area_delta(record.total_contributed, amount) > u128::MAX
}

/// True exactly when the deposit is booked: a positive amount, an active
/// round, and no counter overflow.
pub open spec fn contribute_accepted(
    round: FundingRound,
    project: Project,
    record: Contribution,
    amount: u64,
) -> bool {
    amount > 0 && round.is_active && !contribute_overflows(round, project, record, amount)
}

/// Splitting a deposit changes nothing: booking `first` and then `second`
/// on top of a running total of `prev` adds exactly the area that booking
/// `first + second` at once would add, and neither step's delta is
/// negative. A contributor who gives N times therefore accrues the same
/// total area as one who gives the sum in one deposit.
pub proof fn lemma_area_delta_split(prev: u64, first: u64, second: u64)
    requires
        prev + first + second <= u64::MAX,
    ensures
        area_delta(prev, first) + area_delta((prev + first) as u64, second) == area_delta(
            prev,
            (first + second) as u64,
        ),
        area_delta(prev, first) >= 0,
        area_delta((prev + first) as u64, second) >= 0,
{
    crate::math::lemma_area_delta_telescopes(prev as nat, first as nat, second as nat);
}

/// Books a contribution of `amount` by the contributor of `record` to
/// `project` inside `round`, all records resolved by the host ledger.
///
/// On success the project's funding, the contributor's running total and the
/// round's donation total each grow by `amount`, the contribution counter by
/// one, and the project's and round's areas by the same square-root delta;
/// the returned notification carries the new funding level. A refused call
/// (zero amount, inactive round, counter overflow) mutates nothing.
pub fn contribute(
    round: &mut FundingRound,
    project: &mut Project,
    record: &mut Contribution,
    amount: u64,
    timestamp: i64,
) -> (r: Result<ContributionMade, AnectosError>)
    requires
        old(project).wf(),
        old(record).project == old(project).project_id,
    ensures
        final(project).wf(),
        r is Err ==> *final(round) == *old(round) && *final(project) == *old(project)
            && *final(record) == *old(record),
        amount == 0 ==> r == Err::<ContributionMade, AnectosError>(AnectosError::InvalidAmount),
        amount > 0 && !old(round).is_active ==> r == Err::<ContributionMade, AnectosError>(
            AnectosError::RoundInactive,
        ),
        amount > 0 && old(round).is_active && contribute_overflows(
            *old(round),
            *old(project),
            *old(record),
            amount,
        ) ==> r == Err::<ContributionMade, AnectosError>(AnectosError::InvalidAmount),
        contribute_accepted(*old(round), *old(project), *old(record), amount) ==> r == Ok::<
            ContributionMade,
            AnectosError,
        >(
            (ContributionMade {
                project: old(project).project_id,
                contributor: old(record).contributor,
                amount,
                new_total_funding: (old(project).current_funding + amount) as u64,
                timestamp,
            }),
        ),
        contribute_accepted(*old(round), *old(project), *old(record), amount) ==> *final(project)
            == (Project {
            current_funding: (old(project).current_funding + amount) as u64,
            area: (old(project).area + area_delta(old(record).total_contributed, amount)) as u128,
            ..*old(project)
        }),
        contribute_accepted(*old(round), *old(project), *old(record), amount) ==> *final(record)
            == (Contribution {
            total_contributed: (old(record).total_contributed + amount) as u64,
            ..*old(record)
        }),
        contribute_accepted(*old(round), *old(project), *old(record), amount) ==> *final(round)
            == (FundingRound {
            area: (old(round).area + area_delta(old(record).total_contributed, amount)) as u128,
            total_donations: (old(round).total_donations + amount) as u64,
            contributor_count: (old(round).contributor_count + 1) as u32,
            ..*old(round)
        }),
        final(project).area >= old(project).area,
        final(round).area >= old(round).area,
{
    if amount == 0 {
        return Err(AnectosError::InvalidAmount);
    }
    if !round.is_active {
        return Err(AnectosError::RoundInactive);
    }
    let new_funding = match project.current_funding.checked_add(amount) {
        Some(v) => v,
        None => {
            return Err(AnectosError::InvalidAmount);
        },
    };
    let new_total = match record.total_contributed.checked_add(amount) {
        Some(v) => v,
        None => {
            return Err(AnectosError::InvalidAmount);
        },
    };
    let new_donations = match round.total_donations.checked_add(amount) {
        Some(v) => v,
        None => {
            return Err(AnectosError::InvalidAmount);
        },
    };
    let new_count = match round.contributor_count.checked_add(1) {
        Some(v) => v,
        None => {
            return Err(AnectosError::InvalidAmount);
        },
    };
    let root_prev = isqrt(record.total_contributed as u128);
    let root_new = isqrt(new_total as u128);
    proof {
        lemma_sqrt_floor_monotonic(record.total_contributed as nat, new_total as nat);
    }
    let delta = root_new - root_prev;
    let new_project_area = match project.area.checked_add(delta) {
        Some(v) => v,
        None => {
            return Err(AnectosError::InvalidAmount);
        },
    };
    let new_round_area = match round.area.checked_add(delta) {
        Some(v) => v,
        None => {
            return Err(AnectosError::InvalidAmount);
        },
    };
    let event = ContributionMade {
        project: project.project_id,
        contributor: record.contributor,
        amount,
        new_total_funding: new_funding,
        timestamp,
    };
    project.current_funding = new_funding;
    project.area = new_project_area;
    record.total_contributed = new_total;
    round.area = new_round_area;
    round.total_donations = new_donations;
    round.contributor_count = new_count;
    Ok(event)
}

} // verus!
