use anectos::contribute::contribute;
use anectos::error::AnectosError;
use anectos::math::isqrt;
use anectos::milestone::complete_milestone;
use anectos::project::{calculate_milestones, change_project_funding_stage, create_project, update_project_whitelist};
use anectos::round::{
    close_round, create_round_vault, fund_project_pool, fund_round_pool,
    initialize_funding_round, set_area_max, set_matching_pool, update_funding_stage_status,
};
use anectos::settle::settle_matching_for_project;
use anectos::state::{Contribution, FundingRound, FundingRoundMeta, FundingStage, Project};
use anectos::withdraw::distribute_funds_to_owner;

fn fresh_round(owner: u64) -> FundingRound {
    initialize_funding_round(owner, 0, 0, 1_000, String::from("round-meta")).0
}

fn fresh_project(project_id: u64, owner: u64, round: u64, target: u64, count: u8) -> Project {
    create_project(
        project_id,
        owner,
        round,
        target,
        count,
        String::from("title"),
        String::from("description"),
        Vec::new(),
        String::from("image"),
        0,
    )
    .0
}

#[test]
fn test_isqrt_exact_values() {
    assert_eq!(isqrt(0), 0);
    assert_eq!(isqrt(1), 1);
    assert_eq!(isqrt(24), 4);
    assert_eq!(isqrt(25), 5);
    assert_eq!(isqrt(99), 9);
    assert_eq!(isqrt(100), 10);
    assert_eq!(isqrt(u64::MAX as u128), 0xFFFF_FFFF);
    assert_eq!(isqrt(u128::MAX), 0xFFFF_FFFF_FFFF_FFFF);
}

#[test]
fn test_isqrt_monotonic_sample() {
    let mut prev = 0u128;
    for x in 0..2_000u128 {
        let r = isqrt(x);
        assert!(r >= prev, "isqrt must be non-decreasing at {}", x);
        assert!(r * r <= x && x < (r + 1) * (r + 1), "isqrt must floor at {}", x);
        prev = r;
    }
}

#[test]
fn test_schedule_exact_amounts() {
    let amounts: Vec<u64> = calculate_milestones(1000, 4).iter().map(|m| m.amount).collect();
    assert_eq!(amounts, vec![100, 200, 300, 400]);

    let single: Vec<u64> = calculate_milestones(1000, 1).iter().map(|m| m.amount).collect();
    assert_eq!(single, vec![1000]);

    // Target below the triangular weight: everything lands on the last one.
    let tiny: Vec<u64> = calculate_milestones(5, 3).iter().map(|m| m.amount).collect();
    assert_eq!(tiny, vec![0, 0, 5]);

    assert!(calculate_milestones(1000, 0).is_empty());
    assert!(calculate_milestones(1000, 4).iter().all(|m| !m.is_achieved));
}

#[test]
fn test_split_contribution_same_area() {
    // Contributing 100 then 300 more gives deltas 10 and 10; the total area
    // equals a single 400-unit contribution.
    let mut round = fresh_round(1);
    let mut project = fresh_project(10, 2, 1, 1_000, 4);
    let mut record = Contribution::new(50, 10);

    contribute(&mut round, &mut project, &mut record, 100, 0).unwrap();
    assert_eq!(project.area, 10);
    assert_eq!(round.area, 10);

    contribute(&mut round, &mut project, &mut record, 300, 0).unwrap();
    assert_eq!(project.area, 20);
    assert_eq!(round.area, 20);
    assert_eq!(record.total_contributed, 400);

    let mut round2 = fresh_round(1);
    let mut project2 = fresh_project(11, 2, 1, 1_000, 4);
    let mut record2 = Contribution::new(51, 11);
    contribute(&mut round2, &mut project2, &mut record2, 400, 0).unwrap();
    assert_eq!(project2.area, project.area);
}

#[test]
fn test_contribute_bookkeeping_and_event() {
    let mut round = fresh_round(1);
    let mut project = fresh_project(10, 2, 1, 1_000, 4);
    let mut record = Contribution::new(50, 10);

    let event = contribute(&mut round, &mut project, &mut record, 144, 99).unwrap();
    assert_eq!(event.project, 10);
    assert_eq!(event.contributor, 50);
    assert_eq!(event.amount, 144);
    assert_eq!(event.new_total_funding, 144);
    assert_eq!(event.timestamp, 99);

    assert_eq!(project.current_funding, 144);
    assert_eq!(project.area, 12);
    assert_eq!(round.total_donations, 144);
    assert_eq!(round.contributor_count, 1);
    assert_eq!(record.total_contributed, 144);
}

#[test]
fn test_contribute_rejections() {
    let mut round = fresh_round(1);
    let mut project = fresh_project(10, 2, 1, 1_000, 4);
    let mut record = Contribution::new(50, 10);

    assert_eq!(
        contribute(&mut round, &mut project, &mut record, 0, 0),
        Err(AnectosError::InvalidAmount)
    );

    close_round(&mut round);
    assert_eq!(
        contribute(&mut round, &mut project, &mut record, 5, 0),
        Err(AnectosError::RoundInactive)
    );
    update_funding_stage_status(&mut round, true);

    // Overflowing the project's funding counter is refused atomically.
    project.current_funding = u64::MAX;
    let before_area = project.area;
    assert_eq!(
        contribute(&mut round, &mut project, &mut record, 1, 0),
        Err(AnectosError::InvalidAmount)
    );
    assert_eq!(project.current_funding, u64::MAX);
    assert_eq!(project.area, before_area);
    assert_eq!(record.total_contributed, 0);
    assert_eq!(round.total_donations, 0);
}

#[test]
fn test_settle_monotonic_and_idempotent() {
    let mut round = fresh_round(1);
    let mut project = fresh_project(10, 2, 1, 1_000, 4);
    let mut record = Contribution::new(50, 10);

    contribute(&mut round, &mut project, &mut record, 400, 0).unwrap();
    fund_project_pool(1, &mut project, 500).unwrap();

    // Sole project: alloc = 500 * 20^2 / 20^2 = 500, limited by the vault.
    let paid = settle_matching_for_project(&round, &mut project, 300).unwrap();
    assert_eq!(paid, 300);
    assert_eq!(project.matching_unlocked, 300);
    assert_eq!(project.pool_distributed, 300);

    // The vault refills; a repeat call pays only the remaining gap.
    let paid2 = settle_matching_for_project(&round, &mut project, 1_000).unwrap();
    assert_eq!(paid2, 200);
    assert_eq!(project.pool_distributed, 500);

    // Settled in full: further calls are no-ops.
    let paid3 = settle_matching_for_project(&round, &mut project, 1_000).unwrap();
    assert_eq!(paid3, 0);
    assert!(project.pool_distributed <= project.matching_pool);
    assert_eq!(project.pool_distributed, 500);
}

#[test]
fn test_settle_zero_paths() {
    let mut round = fresh_round(1);
    let mut project = fresh_project(10, 2, 1, 1_000, 4);

    // No area anywhere: a successful no-op.
    assert_eq!(settle_matching_for_project(&round, &mut project, 1_000), Ok(0));

    let mut record = Contribution::new(50, 10);
    contribute(&mut round, &mut project, &mut record, 100, 0).unwrap();
    // Still no matching budget.
    assert_eq!(settle_matching_for_project(&round, &mut project, 1_000), Ok(0));
    assert_eq!(project.matching_unlocked, 0);
}

#[test]
fn test_settle_area_max_saturation() {
    let mut round = fresh_round(1);
    let mut project = fresh_project(10, 2, 1, 1_000, 4);
    let mut record = Contribution::new(50, 10);
    contribute(&mut round, &mut project, &mut record, 100, 0).unwrap();
    fund_project_pool(1, &mut project, 900).unwrap();

    // area = 10; with a saturation target of 30 the project is owed
    // 900 * 100 / 900 = 100 instead of its full budget.
    set_area_max(&mut round, 30);
    let paid = settle_matching_for_project(&round, &mut project, 10_000).unwrap();
    assert_eq!(paid, 100);
}

#[test]
fn test_withdraw_decreases_funds_exactly() {
    let mut round = fresh_round(1);
    let mut project = fresh_project(10, 2, 1, 1_000, 4);
    let mut record = Contribution::new(50, 10);
    contribute(&mut round, &mut project, &mut record, 400, 0).unwrap();
    fund_project_pool(1, &mut project, 500).unwrap();
    settle_matching_for_project(&round, &mut project, 500).unwrap();

    // current_funding 400, matching_unlocked 500.
    let before = project.current_funding + project.matching_unlocked;
    distribute_funds_to_owner(&mut project, 2, 650, 900).unwrap();
    let after = project.current_funding + project.matching_unlocked;
    assert_eq!(before - after, 650);
    // Deducted from current_funding first, remainder from matching.
    assert_eq!(project.current_funding, 0);
    assert_eq!(project.matching_unlocked, 250);
}

#[test]
fn test_withdraw_rejections() {
    let mut round = fresh_round(1);
    let mut project = fresh_project(10, 2, 1, 1_000, 4);
    let mut record = Contribution::new(50, 10);
    contribute(&mut round, &mut project, &mut record, 400, 0).unwrap();

    assert_eq!(
        distribute_funds_to_owner(&mut project, 3, 100, 400),
        Err(AnectosError::Unauthorized)
    );
    // More than current_funding + matching_unlocked never succeeds.
    assert_eq!(
        distribute_funds_to_owner(&mut project, 2, 401, 10_000),
        Err(AnectosError::InsufficientFunds)
    );
    // Vault balance below the amount.
    assert_eq!(
        distribute_funds_to_owner(&mut project, 2, 400, 399),
        Err(AnectosError::InsufficientFunds)
    );
    assert_eq!(project.current_funding, 400);
}

#[test]
fn test_complete_milestone_twice() {
    let mut round = fresh_round(1);
    // Schedule for 1000 over 4 milestones: [100, 200, 300, 400].
    let mut project = fresh_project(10, 2, 1, 1_000, 4);
    let mut record = Contribution::new(50, 10);
    contribute(&mut round, &mut project, &mut record, 250, 0).unwrap();

    let event = complete_milestone(&mut project, 0, 7).unwrap();
    assert_eq!(event.milestone_index, 0);
    assert_eq!(event.milestone_amount, 100);
    assert!(project.milestones[0].is_achieved);

    // Second completion of the same index fails and reverts nothing.
    assert_eq!(complete_milestone(&mut project, 0, 8), Err(AnectosError::AlreadyCompleted));
    assert!(project.milestones[0].is_achieved);

    assert_eq!(complete_milestone(&mut project, 9, 9), Err(AnectosError::IndexOutOfBounds));
    // Milestone 3 needs 400 > 250 of funding.
    assert_eq!(complete_milestone(&mut project, 3, 9), Err(AnectosError::InsufficientFunds));
    assert_eq!(project.milestones.len(), 4);
}

#[test]
fn test_fund_pool_rejections() {
    let mut round = fresh_round(1);
    assert_eq!(fund_round_pool(&mut round, 0), Err(AnectosError::InvalidAmount));
    fund_round_pool(&mut round, u64::MAX).unwrap();
    assert_eq!(fund_round_pool(&mut round, 1), Err(AnectosError::InvalidAmount));
    assert_eq!(round.matching_pool, u64::MAX);

    let mut project = fresh_project(10, 2, 1, 1_000, 4);
    assert_eq!(fund_project_pool(1, &mut project, 0), Err(AnectosError::InvalidAmount));
    assert_eq!(fund_project_pool(99, &mut project, 10), Err(AnectosError::Unauthorized));
    fund_project_pool(1, &mut project, 10).unwrap();
    assert_eq!(project.matching_pool, 10);
}

#[test]
fn test_round_setters() {
    let (mut round, meta) = initialize_funding_round(1, 50, 100, 200, String::from("uri"));
    assert!(round.is_active);
    assert_eq!(round.matching_pool, 50);
    assert_eq!(meta.start_time, 100);
    assert_eq!(meta.end_time, 200);
    assert_eq!(meta.nft_metadata_uri, "uri");

    create_round_vault(&mut round, 77, 3);
    assert_eq!(round.round_vault, 77);
    assert_eq!(round.vault_bump, 3);

    set_matching_pool(&mut round, 123);
    assert_eq!(round.matching_pool, 123);

    set_area_max(&mut round, 456);
    assert_eq!(round.area_max, 456);

    update_funding_stage_status(&mut round, false);
    assert!(!round.is_active);
    update_funding_stage_status(&mut round, true);
    assert!(round.is_active);

    close_round(&mut round);
    assert!(!round.is_active);

    assert_eq!(FundingRoundMeta::space(), 228);
}

#[test]
fn test_project_creation_and_whitelist() {
    let (project, meta, event) = create_project(
        10,
        2,
        1,
        1_000,
        4,
        String::from("title"),
        String::from("description"),
        Vec::new(),
        String::from("image"),
        42,
    );
    assert_eq!(project.owner, 2);
    assert_eq!(project.target_amount, 1_000);
    assert_eq!(project.area, 0);
    assert_eq!(project.current_funding, 0);
    assert!(!project.is_whitelisted);
    assert_eq!(project.milestones.len(), 4);
    assert_eq!(meta.title, "title");
    assert_eq!(event.project, 10);
    assert_eq!(event.timestamp, 42);

    let mut project = project;
    update_project_whitelist(&mut project, true);
    assert!(project.is_whitelisted);
}

#[test]
fn test_change_project_funding_stage() {
    let mut round = fresh_round(1);
    close_round(&mut round);
    let (project, meta, _) = create_project(
        10,
        2,
        1,
        1_000,
        4,
        String::from("title"),
        String::from("description"),
        Vec::new(),
        String::from("image"),
        0,
    );
    let mut project = project;
    let mut meta = meta;
    assert_eq!(meta.funding_stage, FundingStage::Planning);

    change_project_funding_stage(&mut meta, &mut project, &mut round, FundingStage::Ongoing);
    assert_eq!(meta.funding_stage, FundingStage::Ongoing);
    assert!(!project.is_whitelisted);
    assert!(!round.is_active);

    // Entering the active stage whitelists the project and wakes the round.
    change_project_funding_stage(&mut meta, &mut project, &mut round, FundingStage::Active);
    assert_eq!(meta.funding_stage, FundingStage::Active);
    assert!(project.is_whitelisted);
    assert!(round.is_active);
}

#[test]
fn test_end_to_end_round() {
    // Round with area_max = 0; project A gets one contribution of 100,
    // project B one of 400, from one contributor each.
    let mut round = fresh_round(1);
    let mut project_a = fresh_project(10, 2, 1, 1_000, 2);
    let mut project_b = fresh_project(11, 3, 1, 1_000, 2);
    let mut record_a = Contribution::new(100, 10);
    let mut record_b = Contribution::new(101, 11);

    let mut vault_a = 0u64;
    let mut vault_b = 0u64;
    let mut round_vault = 0u64;

    vault_a += 100;
    contribute(&mut round, &mut project_a, &mut record_a, 100, 0).unwrap();
    vault_b += 400;
    contribute(&mut round, &mut project_b, &mut record_b, 400, 0).unwrap();

    // round.area = isqrt(100) + isqrt(400) = 10 + 20 = 30.
    assert_eq!(round.area, 30);

    // Fund each project's matching pool with 900 (held in the round vault).
    round_vault += 900;
    fund_project_pool(1, &mut project_a, 900).unwrap();
    round_vault += 900;
    fund_project_pool(1, &mut project_b, 900).unwrap();

    // settle(A): denom_area = 30, alloc = 900 * 10^2 / 30^2 = 100.
    let paid_a = settle_matching_for_project(&round, &mut project_a, round_vault).unwrap();
    assert_eq!(paid_a, 100);
    round_vault -= paid_a;
    vault_a += paid_a;

    // settle(B): alloc = 900 * 20^2 / 30^2 = 400.
    let paid_b = settle_matching_for_project(&round, &mut project_b, round_vault).unwrap();
    assert_eq!(paid_b, 400);
    round_vault -= paid_b;
    vault_b += paid_b;

    assert!(project_a.pool_distributed <= project_a.matching_pool);
    assert!(project_b.pool_distributed <= project_b.matching_pool);

    // Owners withdraw everything they are owed.
    distribute_funds_to_owner(&mut project_a, 2, 200, vault_a).unwrap();
    assert_eq!(project_a.current_funding + project_a.matching_unlocked, 0);
    distribute_funds_to_owner(&mut project_b, 3, 800, vault_b).unwrap();
    assert_eq!(project_b.current_funding + project_b.matching_unlocked, 0);
}
