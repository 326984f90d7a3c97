//! Funding-round administration: creating a round, funding its matching
//! pools, and the owner-only flag and budget setters.

use crate::error::AnectosError;
use crate::state::{FundingRound, FundingRoundMeta, Project};
use vstd::prelude::*;

verus! {

/// Opens a funding round for `owner` with a declared matching budget. The
/// round starts active with every counter at zero; the timestamps and the
/// metadata text go to the round's metadata record.
pub fn initialize_funding_round(
    owner: u64,
    matching_pool: u64,
    start_time: i64,
    end_time: i64,
    nft_metadata_uri: String,
) -> (r: (FundingRound, FundingRoundMeta))
    ensures
        r.0 == (FundingRound {
            owner,
            matching_pool,
            total_donations: 0u64,
            area: 0u128,
            area_max: 0u128,
            contributor_count: 0u32,
            round_vault: 0u64,
            vault_bump: 0u8,
            is_active: true,
            fee: 0u64,
        }),
        r.1.nft_metadata_uri == nft_metadata_uri,
        r.1.start_time == start_time,
        r.1.end_time == end_time,
{
    let round = FundingRound {
        owner,
        matching_pool,
        total_donations: 0,
        area: 0,
        area_max: 0,
        contributor_count: 0,
        round_vault: 0,
        vault_bump: 0,
        is_active: true,
        fee: 0,
    };
    let meta = FundingRoundMeta { nft_metadata_uri, start_time, end_time };
    (round, meta)
}

/// Records the id and derivation nonce of the round's vault account, once
/// the host has created it.
pub fn create_round_vault(round: &mut FundingRound, round_vault: u64, vault_bump: u8)
    ensures
        *final(round) == (FundingRound { round_vault, vault_bump, ..*old(round) }),
{
    round.round_vault = round_vault;
    round.vault_bump = vault_bump;
}

/// Deactivates the round: no further contributions or settlement. Closing
/// does not delete the record.
pub fn close_round(round: &mut FundingRound)
    ensures
        *final(round) == (FundingRound { is_active: false, ..*old(round) }),
{
    round.is_active = false;
}

/// Overwrites the round's active flag; an authorized caller may set it
/// either way.
pub fn update_funding_stage_status(round: &mut FundingRound, is_active: bool)
    ensures
        *final(round) == (FundingRound { is_active, ..*old(round) }),
{
    round.is_active = is_active;
}

/// Sets the round's saturation target for settlement. Zero disables the
/// target, so settlement divides by the round's own area.
pub fn set_area_max(round: &mut FundingRound, area_max: u128)
    ensures
        *final(round) == (FundingRound { area_max, ..*old(round) }),
{
    round.area_max = area_max;
}

/// Declares the round's matching pool to be the balance the host reports
/// for the round vault. Moves no funds; only the declared figure changes.
pub fn set_matching_pool(round: &mut FundingRound, round_vault_balance: u64)
    ensures
        *final(round) == (FundingRound { matching_pool: round_vault_balance, ..*old(round) }),
{
    round.matching_pool = round_vault_balance;
}

/// Books a deposit of `amount` into the round-level matching pool. The host
/// moves the funds into the round vault first; this call only raises the
/// declared pool. A zero amount, or a pool counter that would overflow, is
/// refused with `InvalidAmount` and changes nothing.
pub fn fund_round_pool(round: &mut FundingRound, amount: u64) -> (r: Result<(), AnectosError>)
    ensures
        r is Err ==> *final(round) == *old(round),
        amount == 0 ==> r == Err::<(), AnectosError>(AnectosError::InvalidAmount),
        amount > 0 && old(round).matching_pool + amount > u64::MAX ==> r == Err::<
            (),
            AnectosError,
        >(AnectosError::InvalidAmount),
        amount > 0 && old(round).matching_pool + amount <= u64::MAX ==> r is Ok && *final(round)
            == (FundingRound {
            matching_pool: (old(round).matching_pool + amount) as u64,
            ..*old(round)
        }),
{
    if amount == 0 {
        return Err(AnectosError::InvalidAmount);
    }
    match round.matching_pool.checked_add(amount) {
        Some(new_pool) => {
            round.matching_pool = new_pool;
            Ok(())
        },
        None => Err(AnectosError::InvalidAmount),
    }
}

/// Books a deposit of `amount` into one project's own matching-pool budget.
/// The funds themselves land in the round vault; the project's declared
/// budget grows by `amount`. Refused with `InvalidAmount` on a zero amount
/// or an overflowing budget, and with `Unauthorized` when the project does
/// not belong to the round; a refused call changes nothing.
pub fn fund_project_pool(
    round_id: u64,
    project: &mut Project,
    amount: u64,
) -> (r: Result<(), AnectosError>)
    requires
        old(project).wf(),
    ensures
        final(project).wf(),
        r is Err ==> *final(project) == *old(project),
        amount == 0 ==> r == Err::<(), AnectosError>(AnectosError::InvalidAmount),
        amount > 0 && old(project).round != round_id ==> r == Err::<(), AnectosError>(
            AnectosError::Unauthorized,
        ),
        amount > 0 && old(project).round == round_id && old(project).matching_pool + amount
            > u64::MAX ==> r == Err::<(), AnectosError>(AnectosError::InvalidAmount),
        amount > 0 && old(project).round == round_id && old(project).matching_pool + amount
            <= u64::MAX ==> r is Ok && *final(project) == (Project {
            matching_pool: (old(project).matching_pool + amount) as u64,
            ..*old(project)
        }),
{
    if amount == 0 {
        return Err(AnectosError::InvalidAmount);
    }
    if project.round != round_id {
        return Err(AnectosError::Unauthorized);
    }
    match project.matching_pool.checked_add(amount) {
        Some(new_pool) => {
            project.matching_pool = new_pool;
            Ok(())
        },
        None => Err(AnectosError::InvalidAmount),
    }
}

} // verus!
