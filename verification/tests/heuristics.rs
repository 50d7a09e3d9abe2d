use realcugan_rs::error::Error;
use realcugan_rs::params::{calculate_prepadding, calculate_tile_size, resolve_sync_gap};

#[test]
fn prepadding_exact_table() {
    assert_eq!(calculate_prepadding(2), Ok(18));
    assert_eq!(calculate_prepadding(3), Ok(14));
    assert_eq!(calculate_prepadding(4), Ok(19));
}

#[test]
fn prepadding_rejects_other_scales() {
    assert_eq!(calculate_prepadding(1), Err(Error::InvalidScale { scale: 1 }));
    assert_eq!(calculate_prepadding(5), Err(Error::InvalidScale { scale: 5 }));
    assert_eq!(calculate_prepadding(0), Err(Error::InvalidScale { scale: 0 }));
    assert_eq!(calculate_prepadding(-2), Err(Error::InvalidScale { scale: -2 }));
}

#[test]
fn tile_override_always_wins() {
    // An override of 128 beats the heap-budget heuristic whatever the budget.
    for budget in [0u32, 100, 199, 201, 1300, 1301, 5000, u32::MAX] {
        assert_eq!(calculate_tile_size(128, 2, 0, budget), 128);
        assert_eq!(calculate_tile_size(128, 3, 0, budget), 128);
        assert_eq!(calculate_tile_size(128, 4, 1, budget), 128);
    }
    assert_eq!(calculate_tile_size(128, 2, -1, 0), 128);
}

#[test]
fn tile_cpu_default() {
    assert_eq!(calculate_tile_size(0, 2, -1, 0), 400);
    assert_eq!(calculate_tile_size(0, 3, -1, u32::MAX), 400);
}

#[test]
fn tile_budget_table_scale_2() {
    assert_eq!(calculate_tile_size(0, 2, 0, 1301), 400);
    assert_eq!(calculate_tile_size(0, 2, 0, 1300), 300);
    assert_eq!(calculate_tile_size(0, 2, 0, 801), 300);
    assert_eq!(calculate_tile_size(0, 2, 0, 800), 100);
    assert_eq!(calculate_tile_size(0, 2, 0, 201), 100);
    assert_eq!(calculate_tile_size(0, 2, 0, 200), 32);
    assert_eq!(calculate_tile_size(0, 2, 0, 0), 32);
}

#[test]
fn tile_budget_table_scale_3() {
    assert_eq!(calculate_tile_size(0, 3, 0, 3301), 400);
    assert_eq!(calculate_tile_size(0, 3, 0, 3300), 300);
    assert_eq!(calculate_tile_size(0, 3, 0, 1901), 300);
    assert_eq!(calculate_tile_size(0, 3, 0, 1900), 200);
    assert_eq!(calculate_tile_size(0, 3, 0, 951), 200);
    assert_eq!(calculate_tile_size(0, 3, 0, 950), 100);
    assert_eq!(calculate_tile_size(0, 3, 0, 321), 100);
    assert_eq!(calculate_tile_size(0, 3, 0, 320), 32);
}

#[test]
fn tile_budget_table_scale_4() {
    assert_eq!(calculate_tile_size(0, 4, 0, 1691), 400);
    assert_eq!(calculate_tile_size(0, 4, 0, 1690), 300);
    assert_eq!(calculate_tile_size(0, 4, 0, 981), 300);
    assert_eq!(calculate_tile_size(0, 4, 0, 980), 200);
    assert_eq!(calculate_tile_size(0, 4, 0, 531), 200);
    assert_eq!(calculate_tile_size(0, 4, 0, 530), 100);
    assert_eq!(calculate_tile_size(0, 4, 0, 241), 100);
    assert_eq!(calculate_tile_size(0, 4, 0, 240), 32);
}

#[test]
fn tile_unknown_scale_is_minimum() {
    assert_eq!(calculate_tile_size(0, 7, 0, 100000), 32);
}

#[test]
fn sync_gap_resolution() {
    assert_eq!(resolve_sync_gap(true, 3), 3);
    assert_eq!(resolve_sync_gap(true, 1), 1);
    assert_eq!(resolve_sync_gap(false, 3), 0);
    assert_eq!(resolve_sync_gap(false, 0), 0);
}
