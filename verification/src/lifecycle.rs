use vstd::prelude::*;

verus! {

/// The observable life of one handle group sharing a native context,
/// together with the process-wide GPU bookkeeping it touches: how many
/// handles still reference the context, how often the native pointer has
/// been freed, how many GPU-mode groups are live in the process, and how
/// often the shared GPU context has been torn down.
pub struct LifeState {
    pub refs: nat,
    pub frees: nat,
    pub gpu_groups: nat,
    pub teardowns: nat,
}

/// The state right after one handle group is successfully constructed:
/// a single referencing handle, nothing freed, and, in GPU mode, one
/// live GPU-mode group registered.
pub open spec fn initial_life(gpu_mode: bool) -> LifeState {
    LifeState {
        refs: 1,
        frees: 0,
        gpu_groups: if gpu_mode {
            1nat
        } else {
            0nat
        },
        teardowns: 0,
    }
}

/// Cloning a handle only raises the reference count.
pub open spec fn life_after_clone(s: LifeState) -> LifeState {
    LifeState { refs: s.refs + 1, ..s }
}

/// Dropping a handle lowers the reference count; the drop that observes
/// the last reference frees the native pointer exactly once and, in GPU
/// mode, retires the group, tearing the shared GPU context down exactly
/// when it was the last live group.
pub open spec fn life_after_drop(s: LifeState, gpu_mode: bool) -> LifeState
    recommends
        s.refs >= 1,
{
    if s.refs == 1 {
        LifeState {
            refs: 0,
            frees: s.frees + 1,
            gpu_groups: if gpu_mode {
                (s.gpu_groups - 1) as nat
            } else {
                s.gpu_groups
            },
            teardowns: if gpu_mode && s.gpu_groups == 1 {
                s.teardowns + 1
            } else {
                s.teardowns
            },
        }
    } else {
        LifeState { refs: (s.refs - 1) as nat, ..s }
    }
}

/// The state after `k` further clones.
pub open spec fn life_after_clones(s: LifeState, k: nat) -> LifeState
    decreases k,
{
    if k == 0 {
        s
    } else {
        life_after_clone(life_after_clones(s, (k - 1) as nat))
    }
}

/// The state after `k` further drops.
pub open spec fn life_after_drops(s: LifeState, k: nat, gpu_mode: bool) -> LifeState
    decreases k,
{
    if k == 0 {
        s
    } else {
        life_after_drop(life_after_drops(s, (k - 1) as nat, gpu_mode), gpu_mode)
    }
}

proof fn lemma_clones_only_raise_refs(s: LifeState, k: nat)
    ensures
        life_after_clones(s, k) == (LifeState { refs: s.refs + k, ..s }),
    decreases k,
{
    if k > 0 {
        lemma_clones_only_raise_refs(s, (k - 1) as nat);
    }
}

proof fn lemma_safe_drops_only_lower_refs(s: LifeState, d: nat, gpu_mode: bool)
    requires
        d < s.refs,
    ensures
        life_after_drops(s, d, gpu_mode) == (LifeState { refs: (s.refs - d) as nat, ..s }),
    decreases d,
{
    if d > 0 {
        lemma_safe_drops_only_lower_refs(s, (d - 1) as nat, gpu_mode);
    }
}

/// Dropping no more handles than were cloned never frees the native
/// pointer: after `n` clones of a fresh handle and `d <= n` drops, the
/// pointer is still allocated, the group is still registered, and the
/// shared GPU context still stands.
pub proof fn lemma_early_drops_leave_pointer_allocated(n: nat, d: nat, gpu_mode: bool)
    requires
        d <= n,
    ensures
        ({
            let s = life_after_drops(life_after_clones(initial_life(gpu_mode), n), d, gpu_mode);
            &&& s.refs == 1 + n - d
            &&& s.frees == 0
            &&& s.gpu_groups == initial_life(gpu_mode).gpu_groups
            &&& s.teardowns == 0
        }),
{
    lemma_clones_only_raise_refs(initial_life(gpu_mode), n);
    lemma_safe_drops_only_lower_refs(
        life_after_clones(initial_life(gpu_mode), n),
        d,
        gpu_mode,
    );
}

/// The drop that observes the last reference frees the native pointer
/// exactly once: after `n` clones of a fresh handle, all `n + 1` handles
/// dropped leave one free behind them — and, in GPU mode, no live
/// GPU-mode group and exactly one teardown of the shared GPU context.
pub proof fn lemma_final_drop_frees_exactly_once(n: nat, gpu_mode: bool)
    ensures
        ({
            let s = life_after_drops(
                life_after_clones(initial_life(gpu_mode), n),
                n + 1,
                gpu_mode,
            );
            &&& s.refs == 0
            &&& s.frees == 1
            &&& gpu_mode ==> s.gpu_groups == 0 && s.teardowns == 1
            &&& !gpu_mode ==> s.gpu_groups == 0 && s.teardowns == 0
        }),
{
    lemma_early_drops_leave_pointer_allocated(n, n, gpu_mode);
    lemma_clones_only_raise_refs(initial_life(gpu_mode), n);
    lemma_safe_drops_only_lower_refs(
        life_after_clones(initial_life(gpu_mode), n),
        n,
        gpu_mode,
    );
}

/// The drop that observes itself holding the last reference is the one
/// that frees the native pointer.
pub fn frees_now(strong_count: usize) -> (b: bool)
    ensures
        b == (strong_count == 1),
{
    strong_count == 1
}

/// Retiring a GPU-mode group tears the shared GPU context down exactly
/// when the group was the last live one: the counter it decremented
/// stood at 1.
pub fn tears_down_shared_gpu(previous_groups: u8) -> (b: bool)
    ensures
        b == (previous_groups == 1),
{
    previous_groups == 1
}

} // verus!
