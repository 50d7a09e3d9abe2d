use realcugan_rs::config::ResolvedSettings;
use realcugan_rs::construct::{build_step, BuildAction, BuildEvent, BuildState};
use realcugan_rs::error::{Error, LoadIssue};
use realcugan_rs::lifecycle::{frees_now, tears_down_shared_gpu};
use realcugan_rs::marshal::EngineSettings;

fn cpu_settings() -> ResolvedSettings {
    ResolvedSettings { gpu: -1, threads: 1, tta: false, sync_gap: 0, tile_size: 0, scale: 2, noise: -1 }
}

fn gpu_settings() -> ResolvedSettings {
    ResolvedSettings { gpu: 0, threads: 4, tta: true, sync_gap: 3, tile_size: 0, scale: 3, noise: 3 }
}

#[test]
fn cpu_construction_walks_to_completion() {
    let cfg = cpu_settings();
    let begin = BuildEvent::Begin { param_empty: false, bin_empty: false };
    let (state, actions) = build_step(&cfg, BuildState::Start, begin);
    // No device to validate and no budget to ask for: straight to the context.
    assert_eq!(state, BuildState::AwaitContext { prepadding: 18, tile_size: 400 });
    assert_eq!(actions, vec![BuildAction::CreateContext { gpu: -1, tta: false, threads: 1 }]);

    let (state, actions) = build_step(&cfg, state, BuildEvent::ContextCreated { null: false });
    assert_eq!(state, BuildState::AwaitLoad { prepadding: 18, tile_size: 400 });
    assert_eq!(actions, vec![BuildAction::LoadModel]);

    let (state, actions) =
        build_step(&cfg, state, BuildEvent::LoadResult { streams_ok: true, status: 0 });
    assert_eq!(
        state,
        BuildState::Complete { settings: EngineSettings { scale: 2, use_cpu: true } }
    );
    assert_eq!(
        actions,
        vec![BuildAction::SetParameters {
            scale: 2,
            noise: -1,
            prepadding: 18,
            sync_gap: 0,
            tile_size: 400,
        }]
    );
}

#[test]
fn gpu_construction_asks_for_count_and_budget() {
    let cfg = gpu_settings();
    let (state, actions) =
        build_step(&cfg, BuildState::Start, BuildEvent::Begin { param_empty: false, bin_empty: false });
    assert_eq!(state, BuildState::AwaitDeviceCount);
    assert_eq!(actions, vec![BuildAction::QueryDeviceCount]);

    let (state, actions) =
        build_step(&cfg, state, BuildEvent::DeviceCount { count: 2, live_gpu_groups: 0 });
    assert_eq!(state, BuildState::AwaitHeapBudget { prepadding: 14 });
    assert_eq!(actions, vec![BuildAction::QueryHeapBudget { gpu: 0 }]);

    // Scale 3, budget 2000: the table picks a 300-pixel tile.
    let (state, actions) = build_step(&cfg, state, BuildEvent::HeapBudget { budget: 2000 });
    assert_eq!(state, BuildState::AwaitContext { prepadding: 14, tile_size: 300 });
    assert_eq!(actions, vec![BuildAction::CreateContext { gpu: 0, tta: true, threads: 4 }]);

    let (state, actions) = build_step(&cfg, state, BuildEvent::ContextCreated { null: false });
    assert_eq!(state, BuildState::AwaitLoad { prepadding: 14, tile_size: 300 });
    assert_eq!(actions, vec![BuildAction::LoadModel]);

    let (state, actions) =
        build_step(&cfg, state, BuildEvent::LoadResult { streams_ok: true, status: 0 });
    assert_eq!(
        state,
        BuildState::Complete { settings: EngineSettings { scale: 3, use_cpu: false } }
    );
    // A GPU-mode group registers itself once construction has succeeded.
    assert_eq!(
        actions,
        vec![
            BuildAction::SetParameters {
                scale: 3,
                noise: 3,
                prepadding: 14,
                sync_gap: 3,
                tile_size: 300,
            },
            BuildAction::RegisterGpuGroup,
        ]
    );
}

#[test]
fn tile_override_skips_the_budget_question() {
    let cfg = ResolvedSettings { tile_size: 128, ..gpu_settings() };
    let (state, _) =
        build_step(&cfg, BuildState::Start, BuildEvent::Begin { param_empty: false, bin_empty: false });
    let (state, actions) =
        build_step(&cfg, state, BuildEvent::DeviceCount { count: 1, live_gpu_groups: 0 });
    // No heap-budget query: the override wins whatever the budget would say.
    assert_eq!(state, BuildState::AwaitContext { prepadding: 14, tile_size: 128 });
    assert_eq!(actions, vec![BuildAction::CreateContext { gpu: 0, tta: true, threads: 4 }]);
}

#[test]
fn invalid_device_fails_and_tears_down_when_idle() {
    // Device 99 requested while only 1 device exists.
    let cfg = ResolvedSettings { gpu: 99, ..gpu_settings() };
    let (state, _) =
        build_step(&cfg, BuildState::Start, BuildEvent::Begin { param_empty: false, bin_empty: false });
    let (state, actions) =
        build_step(&cfg, state, BuildEvent::DeviceCount { count: 1, live_gpu_groups: 0 });
    assert_eq!(
        state,
        BuildState::Failed { error: Error::Device { requested: 99, available: 1 } }
    );
    // No other GPU handle is live, so the shared context is torn down.
    assert_eq!(actions, vec![BuildAction::TeardownSharedGpu]);
}

#[test]
fn invalid_device_leaves_live_context_alone() {
    let cfg = ResolvedSettings { gpu: 99, ..gpu_settings() };
    let (state, _) =
        build_step(&cfg, BuildState::Start, BuildEvent::Begin { param_empty: false, bin_empty: false });
    let (state, actions) =
        build_step(&cfg, state, BuildEvent::DeviceCount { count: 1, live_gpu_groups: 2 });
    assert_eq!(
        state,
        BuildState::Failed { error: Error::Device { requested: 99, available: 1 } }
    );
    assert_eq!(actions, Vec::new());
}

#[test]
fn empty_model_bytes_fail_configuration() {
    let cfg = cpu_settings();
    let (state, actions) =
        build_step(&cfg, BuildState::Start, BuildEvent::Begin { param_empty: true, bin_empty: false });
    assert_eq!(state, BuildState::Failed { error: Error::Configuration });
    assert_eq!(actions, Vec::new());
}

#[test]
fn invalid_scale_fails_before_any_native_context() {
    let cfg = ResolvedSettings { scale: 5, ..cpu_settings() };
    let (state, actions) =
        build_step(&cfg, BuildState::Start, BuildEvent::Begin { param_empty: false, bin_empty: false });
    assert_eq!(state, BuildState::Failed { error: Error::InvalidScale { scale: 5 } });
    assert_eq!(actions, Vec::new());
}

#[test]
fn null_context_fails_with_handle_error() {
    let cfg = cpu_settings();
    let (state, _) =
        build_step(&cfg, BuildState::Start, BuildEvent::Begin { param_empty: false, bin_empty: false });
    let (state, actions) = build_step(&cfg, state, BuildEvent::ContextCreated { null: true });
    assert_eq!(state, BuildState::Failed { error: Error::Handle });
    assert_eq!(actions, Vec::new());
}

#[test]
fn load_failure_destroys_the_partial_context() {
    let cfg = cpu_settings();
    let (state, _) =
        build_step(&cfg, BuildState::Start, BuildEvent::Begin { param_empty: false, bin_empty: false });
    let (state, _) = build_step(&cfg, state, BuildEvent::ContextCreated { null: false });

    // The loader reported a nonzero status: fail, but never leak the context.
    let (failed, actions) =
        build_step(&cfg, state, BuildEvent::LoadResult { streams_ok: true, status: -500 });
    assert_eq!(
        failed,
        BuildState::Failed { error: Error::Load { cause: LoadIssue::NativeStatus { status: -500 } } }
    );
    assert_eq!(actions, vec![BuildAction::DestroyContext]);

    // The in-memory stream views could not be created: same cleanup.
    let (failed, actions) =
        build_step(&cfg, state, BuildEvent::LoadResult { streams_ok: false, status: 0 });
    assert_eq!(
        failed,
        BuildState::Failed { error: Error::Load { cause: LoadIssue::StreamUnavailable } }
    );
    assert_eq!(actions, vec![BuildAction::DestroyContext]);
}

#[test]
fn clones_then_drops_free_exactly_once() {
    // Five handles share one context: one original and four clones. Only
    // the drop that observes the last reference frees.
    let mut strong: usize = 5;
    let mut frees: u32 = 0;
    while strong > 0 {
        if frees_now(strong) {
            frees += 1;
        }
        strong -= 1;
    }
    assert_eq!(frees, 1);

    // Dropping only four of the five never frees.
    let mut strong: usize = 5;
    let mut frees: u32 = 0;
    for _ in 0..4 {
        if frees_now(strong) {
            frees += 1;
        }
        strong -= 1;
    }
    assert_eq!(frees, 0);
    assert_eq!(strong, 1);
}

#[test]
fn last_gpu_group_tears_the_shared_context_down() {
    // Three GPU handle groups retire one after the other; only the last
    // retirement tears the shared context down, leaving the counter at 0.
    let mut groups: u8 = 3;
    let mut teardowns: u32 = 0;
    while groups > 0 {
        if tears_down_shared_gpu(groups) {
            teardowns += 1;
        }
        groups -= 1;
    }
    assert_eq!(teardowns, 1);
    assert_eq!(groups, 0);
}
