use vstd::prelude::*;

use crate::config::ResolvedSettings;
use crate::error::Error;
use crate::error::LoadIssue;
use crate::marshal::EngineSettings;
use crate::params::CPU_TILE_SIZE;
use crate::params::calculate_prepadding;
use crate::params::calculate_tile_size;
use crate::params::tile_size_from_budget;
use crate::params::prepadding_for;
use crate::params::tile_for_budget;

verus! {

/// Where a construction stands between two steps at the native boundary.
#[derive(Debug, Clone, Copy, PartialEq, Eq, Structural)]
pub enum BuildState {
    /// Nothing has happened yet.
    Start,
    /// The engine has been asked for its device count.
    AwaitDeviceCount,
    /// The device has been asked for its heap budget.
    AwaitHeapBudget { prepadding: i32 },
    /// The native context is being created.
    AwaitContext { prepadding: i32, tile_size: i32 },
    /// The model bytes are being loaded into the live context.
    AwaitLoad { prepadding: i32, tile_size: i32 },
    /// Construction succeeded; the handle's fixed identity is settled.
    Complete { settings: EngineSettings },
    /// Construction failed; nothing is left live.
    Failed { error: Error },
}

/// What the native boundary reported back for the pending step.
#[derive(Debug, Clone, Copy, PartialEq, Eq, Structural)]
pub enum BuildEvent {
    /// Construction begins; whether each half of the resolved model byte
    /// pair turned out empty.
    Begin { param_empty: bool, bin_empty: bool },
    /// The engine reported its device count; the process-wide number of
    /// live GPU-mode groups rides along for the teardown decision.
    DeviceCount { count: i32, live_gpu_groups: u8 },
    /// The device reported its heap budget.
    HeapBudget { budget: u32 },
    /// The native context came back; whether its pointer is null.
    ContextCreated { null: bool },
    /// The model bytes went through in-memory stream views: whether the
    /// views could be created, and the native loader's status.
    LoadResult { streams_ok: bool, status: i32 },
}

/// What the caller performs at the native boundary before handing the
/// next event back.
#[derive(Debug, Clone, Copy, PartialEq, Eq, Structural)]
pub enum BuildAction {
    /// Ask the engine for its device count.
    QueryDeviceCount,
    /// Tear the shared GPU context down.
    TeardownSharedGpu,
    /// Ask this device for its heap budget.
    QueryHeapBudget { gpu: i32 },
    /// Create the native context.
    CreateContext { gpu: i32, tta: bool, threads: i32 },
    /// Load the model byte pair into the context through in-memory views.
    LoadModel,
    /// Apply the resolved numeric parameters to the context.
    SetParameters { scale: i32, noise: i32, prepadding: i32, sync_gap: i32, tile_size: i32 },
    /// Destroy the partially-initialized context.
    DestroyContext,
    /// Register one more live GPU-mode group.
    RegisterGpuGroup,
}

/// The step after the device (if any) is validated: compute the
/// prepadding, then either settle the tile size at once — a nonzero
/// override wins, and the CPU gets its fixed tile — or ask for the heap
/// budget first.
pub open spec fn transition_toward_context(cfg: ResolvedSettings) -> (BuildState, Seq<
    BuildAction,
>) {
    if !(cfg.scale == 2 || cfg.scale == 3 || cfg.scale == 4) {
        (BuildState::Failed { error: Error::InvalidScale { scale: cfg.scale } }, Seq::empty())
    } else {
        let prepadding = prepadding_for(cfg.scale as int) as i32;
        if cfg.tile_size != 0 || cfg.gpu == -1 {
            let tile_size = if cfg.tile_size != 0 {
                cfg.tile_size
            } else {
                CPU_TILE_SIZE
            };
            (
                BuildState::AwaitContext { prepadding, tile_size },
                seq![BuildAction::CreateContext { gpu: cfg.gpu, tta: cfg.tta, threads: cfg.threads }],
            )
        } else {
            (
                BuildState::AwaitHeapBudget { prepadding },
                seq![BuildAction::QueryHeapBudget { gpu: cfg.gpu }],
            )
        }
    }
}

/// The whole construction protocol, one step per event. States and
/// events that do not belong together leave the state as it stands and
/// ask for nothing.
pub open spec fn build_transition(
    cfg: ResolvedSettings,
    state: BuildState,
    event: BuildEvent,
) -> (BuildState, Seq<BuildAction>) {
    match (state, event) {
        (BuildState::Start, BuildEvent::Begin { param_empty, bin_empty }) => {
            if param_empty || bin_empty {
                (BuildState::Failed { error: Error::Configuration }, Seq::empty())
            } else if cfg.gpu == -1 {
                transition_toward_context(cfg)
            } else {
                (BuildState::AwaitDeviceCount, seq![BuildAction::QueryDeviceCount])
            }
        },
        (BuildState::AwaitDeviceCount, BuildEvent::DeviceCount { count, live_gpu_groups }) => {
            if cfg.gpu >= count {
                (
                    BuildState::Failed {
                        error: Error::Device { requested: cfg.gpu, available: count },
                    },
                    if live_gpu_groups == 0 {
                        seq![BuildAction::TeardownSharedGpu]
                    } else {
                        Seq::empty()
                    },
                )
            } else {
                transition_toward_context(cfg)
            }
        },
        (BuildState::AwaitHeapBudget { prepadding }, BuildEvent::HeapBudget { budget }) => {
            let tile_size = tile_for_budget(cfg.scale as int, budget as int) as i32;
            (
                BuildState::AwaitContext { prepadding, tile_size },
                seq![BuildAction::CreateContext { gpu: cfg.gpu, tta: cfg.tta, threads: cfg.threads }],
            )
        },
        (BuildState::AwaitContext { prepadding, tile_size }, BuildEvent::ContextCreated { null }) => {
            if null {
                (BuildState::Failed { error: Error::Handle }, Seq::empty())
            } else {
                (BuildState::AwaitLoad { prepadding, tile_size }, seq![BuildAction::LoadModel])
            }
        },
        (
            BuildState::AwaitLoad { prepadding, tile_size },
            BuildEvent::LoadResult { streams_ok, status },
        ) => {
            if !streams_ok {
                (
                    BuildState::Failed { error: Error::Load { cause: LoadIssue::StreamUnavailable } },
                    seq![BuildAction::DestroyContext],
                )
            } else if status != 0 {
                (
                    BuildState::Failed {
                        error: Error::Load { cause: LoadIssue::NativeStatus { status } },
                    },
                    seq![BuildAction::DestroyContext],
                )
            } else {
                (
                    BuildState::Complete {
                        settings: EngineSettings { scale: cfg.scale, use_cpu: cfg.gpu == -1 },
                    },
                    if cfg.gpu == -1 {
                        seq![
                            BuildAction::SetParameters {
                                scale: cfg.scale,
                                noise: cfg.noise,
                                prepadding,
                                sync_gap: cfg.sync_gap,
                                tile_size,
                            },
                        ]
                    } else {
                        seq![
                            BuildAction::SetParameters {
                                scale: cfg.scale,
                                noise: cfg.noise,
                                prepadding,
                                sync_gap: cfg.sync_gap,
                                tile_size,
                            },
                            BuildAction::RegisterGpuGroup,
                        ]
                    },
                )
            }
        },
        _ => (state, Seq::empty()),
    }
}

/// Drives the construction protocol one step: from the current state and
/// the event the native boundary reported, to the next state and the
/// actions to perform there.
pub fn build_step(cfg: &ResolvedSettings, state: BuildState, event: BuildEvent) -> (r: (
    BuildState,
    Vec<BuildAction>,
))
    ensures
        r.0 == build_transition(*cfg, state, event).0,
        r.1@ == build_transition(*cfg, state, event).1,
{
    match (state, event) {
        (BuildState::Start, BuildEvent::Begin { param_empty, bin_empty }) => {
            if param_empty || bin_empty {
                (BuildState::Failed { error: Error::Configuration }, Vec::new())
            } else if cfg.gpu == -1 {
                step_toward_context(cfg)
            } else {
                let mut actions: Vec<BuildAction> = Vec::new();
                actions.push(BuildAction::QueryDeviceCount);
                proof {
                    assert(actions@ =~= seq![BuildAction::QueryDeviceCount]);
                }
                (BuildState::AwaitDeviceCount, actions)
            }
        },
        (BuildState::AwaitDeviceCount, BuildEvent::DeviceCount { count, live_gpu_groups }) => {
            if cfg.gpu >= count {
                let mut actions: Vec<BuildAction> = Vec::new();
                if live_gpu_groups == 0 {
                    actions.push(BuildAction::TeardownSharedGpu);
                    proof {
                        assert(actions@ =~= seq![BuildAction::TeardownSharedGpu]);
                    }
                }
                (
                    BuildState::Failed {
                        error: Error::Device { requested: cfg.gpu, available: count },
                    },
                    actions,
                )
            } else {
                step_toward_context(cfg)
            }
        },
        (BuildState::AwaitHeapBudget { prepadding }, BuildEvent::HeapBudget { budget }) => {
            let tile_size = tile_size_from_budget(cfg.scale, budget);
            let mut actions: Vec<BuildAction> = Vec::new();
            actions.push(
                BuildAction::CreateContext { gpu: cfg.gpu, tta: cfg.tta, threads: cfg.threads },
            );
            proof {
                assert(actions@ =~= seq![
                    BuildAction::CreateContext { gpu: cfg.gpu, tta: cfg.tta, threads: cfg.threads },
                ]);
            }
            (BuildState::AwaitContext { prepadding, tile_size }, actions)
        },
        (BuildState::AwaitContext { prepadding, tile_size }, BuildEvent::ContextCreated { null }) => {
            if null {
                (BuildState::Failed { error: Error::Handle }, Vec::new())
            } else {
                let mut actions: Vec<BuildAction> = Vec::new();
                actions.push(BuildAction::LoadModel);
                proof {
                    assert(actions@ =~= seq![BuildAction::LoadModel]);
                }
                (BuildState::AwaitLoad { prepadding, tile_size }, actions)
            }
        },
        (
            BuildState::AwaitLoad { prepadding, tile_size },
            BuildEvent::LoadResult { streams_ok, status },
        ) => {
            if !streams_ok {
                let mut actions: Vec<BuildAction> = Vec::new();
                actions.push(BuildAction::DestroyContext);
                proof {
                    assert(actions@ =~= seq![BuildAction::DestroyContext]);
                }
                (
                    BuildState::Failed { error: Error::Load { cause: LoadIssue::StreamUnavailable } },
                    actions,
                )
            } else if status != 0 {
                let mut actions: Vec<BuildAction> = Vec::new();
                actions.push(BuildAction::DestroyContext);
                proof {
                    assert(actions@ =~= seq![BuildAction::DestroyContext]);
                }
                (
                    BuildState::Failed {
                        error: Error::Load { cause: LoadIssue::NativeStatus { status } },
                    },
                    actions,
                )
            } else {
                let set = BuildAction::SetParameters {
                    scale: cfg.scale,
                    noise: cfg.noise,
                    prepadding,
                    sync_gap: cfg.sync_gap,
                    tile_size,
                };
                let mut actions: Vec<BuildAction> = Vec::new();
                actions.push(set);
                if cfg.gpu != -1 {
                    actions.push(BuildAction::RegisterGpuGroup);
                    proof {
                        assert(actions@ =~= seq![set, BuildAction::RegisterGpuGroup]);
                    }
                } else {
                    proof {
                        assert(actions@ =~= seq![set]);
                    }
                }
                (
                    BuildState::Complete {
                        settings: EngineSettings { scale: cfg.scale, use_cpu: cfg.gpu == -1 },
                    },
                    actions,
                )
            }
        },
        _ => (state, Vec::new()),
    }
}

/// The shared tail of device validation and the CPU shortcut: computes
/// the prepadding and either settles the tile size or asks for the heap
/// budget.
fn step_toward_context(cfg: &ResolvedSettings) -> (r: (BuildState, Vec<BuildAction>))
    ensures
        r.0 == transition_toward_context(*cfg).0,
        r.1@ == transition_toward_context(*cfg).1,
{
    let prepadding = match calculate_prepadding(cfg.scale) {
        Ok(p) => p,
        Err(e) => {
            return (BuildState::Failed { error: e }, Vec::new());
        },
    };
    if cfg.tile_size != 0 || cfg.gpu == -1 {
        let tile_size = calculate_tile_size(cfg.tile_size, cfg.scale, -1, 0);
        let mut actions: Vec<BuildAction> = Vec::new();
        actions.push(
            BuildAction::CreateContext { gpu: cfg.gpu, tta: cfg.tta, threads: cfg.threads },
        );
        proof {
            assert(actions@ =~= seq![
                BuildAction::CreateContext { gpu: cfg.gpu, tta: cfg.tta, threads: cfg.threads },
            ]);
        }
        (BuildState::AwaitContext { prepadding, tile_size }, actions)
    } else {
        let mut actions: Vec<BuildAction> = Vec::new();
        actions.push(BuildAction::QueryHeapBudget { gpu: cfg.gpu });
        proof {
            assert(actions@ =~= seq![BuildAction::QueryHeapBudget { gpu: cfg.gpu }]);
        }
        (BuildState::AwaitHeapBudget { prepadding }, actions)
    }
}

/// What holds of every state a construction under `cfg` can reach: once
/// the prepadding is carried it is exactly the table value for the
/// configured scale, a carried tile size honours a nonzero override
/// verbatim, and a completed handle's identity matches the
/// configuration.
pub open spec fn state_inv(cfg: ResolvedSettings, state: BuildState) -> bool {
    match state {
        BuildState::AwaitHeapBudget { prepadding } => {
            &&& cfg.scale == 2 || cfg.scale == 3 || cfg.scale == 4
            &&& prepadding == prepadding_for(cfg.scale as int)
            &&& cfg.tile_size == 0
            &&& cfg.gpu != -1
        },
        BuildState::AwaitContext { prepadding, tile_size } => {
            &&& cfg.scale == 2 || cfg.scale == 3 || cfg.scale == 4
            &&& prepadding == prepadding_for(cfg.scale as int)
            &&& cfg.tile_size != 0 ==> tile_size == cfg.tile_size
        },
        BuildState::AwaitLoad { prepadding, tile_size } => {
            &&& cfg.scale == 2 || cfg.scale == 3 || cfg.scale == 4
            &&& prepadding == prepadding_for(cfg.scale as int)
            &&& cfg.tile_size != 0 ==> tile_size == cfg.tile_size
        },
        BuildState::Complete { settings } => {
            &&& settings == (EngineSettings { scale: cfg.scale, use_cpu: cfg.gpu == -1 })
            &&& settings.wf()
        },
        _ => true,
    }
}

/// Every step of the protocol preserves the reachable-state invariant;
/// in particular a construction only completes with a supported scale
/// and with the handle identity the configuration asked for.
pub proof fn lemma_transition_preserves_inv(
    cfg: ResolvedSettings,
    state: BuildState,
    event: BuildEvent,
)
    requires
        state_inv(cfg, state),
    ensures
        state_inv(cfg, build_transition(cfg, state, event).0),
{
}

/// A failed load never leaks the partially-initialized native context:
/// whenever the load step fails — the stream views could not be created,
/// or the loader reported a nonzero status — the transition fails with a
/// load error and orders the context destroyed.
pub proof fn lemma_load_failure_destroys_context(
    cfg: ResolvedSettings,
    prepadding: i32,
    tile_size: i32,
    streams_ok: bool,
    status: i32,
)
    requires
        !streams_ok || status != 0,
    ensures
        ({
            let (next, actions) = build_transition(
                cfg,
                BuildState::AwaitLoad { prepadding, tile_size },
                BuildEvent::LoadResult { streams_ok, status },
            );
            &&& (next matches BuildState::Failed { error } && error matches Error::Load { .. })
            &&& actions.contains(BuildAction::DestroyContext)
        }),
{
    let (next, actions) = build_transition(
        cfg,
        BuildState::AwaitLoad { prepadding, tile_size },
        BuildEvent::LoadResult { streams_ok, status },
    );
    assert(actions[0] == BuildAction::DestroyContext);
}

/// A rejected device index fails construction with a device error, and
/// tears the shared GPU context down exactly when no GPU-mode group is
/// live — instead of leaving it idle.
pub proof fn lemma_invalid_device_fails_and_tears_down(
    cfg: ResolvedSettings,
    count: i32,
    live_gpu_groups: u8,
)
    requires
        cfg.gpu >= count,
    ensures
        ({
            let (next, actions) = build_transition(
                cfg,
                BuildState::AwaitDeviceCount,
                BuildEvent::DeviceCount { count, live_gpu_groups },
            );
            &&& next == (BuildState::Failed {
                error: Error::Device { requested: cfg.gpu, available: count },
            })
            &&& live_gpu_groups == 0 ==> actions =~= seq![BuildAction::TeardownSharedGpu]
            &&& live_gpu_groups != 0 ==> actions =~= Seq::<BuildAction>::empty()
        }),
{
}

/// A nonzero tile-size override reaches the native parameters verbatim:
/// whatever the heap budget said, the parameters a completed
/// construction applies carry the override.
pub proof fn lemma_tile_override_reaches_parameters(
    cfg: ResolvedSettings,
    prepadding: i32,
    tile_size: i32,
)
    requires
        state_inv(cfg, BuildState::AwaitLoad { prepadding, tile_size }),
        cfg.tile_size != 0,
    ensures
        ({
            let (next, actions) = build_transition(
                cfg,
                BuildState::AwaitLoad { prepadding, tile_size },
                BuildEvent::LoadResult { streams_ok: true, status: 0 },
            );
            actions[0] == (BuildAction::SetParameters {
                scale: cfg.scale,
                noise: cfg.noise,
                prepadding: prepadding_for(cfg.scale as int) as i32,
                sync_gap: cfg.sync_gap,
                tile_size: cfg.tile_size,
            })
        }),
{
}

} // verus!
