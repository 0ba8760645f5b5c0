//! Per-load observer dispatch.
//!
//! Each firing of the game-load detour first forwards the host's version
//! tag to the original routine, then reads the live emulator state pointer
//! through two pointer hops from the resolved data symbol, and invokes
//! every registered observer once, in registration order, with the same
//! `(version tag, state pointer)` pair. The pointer hops are re-read on
//! every firing because the host may reassign them between loads.

use vstd::prelude::*;
use crate::scanner::wrap64;
use crate::scanner::wrapping_offset;

verus! {

/// One owed observer invocation.
#[derive(Clone, Copy, PartialEq, Eq, Structural, Debug)]
pub struct ObserverCall {
    /// Position of the observer in the registration order.
    pub observer: usize,
    /// The host's version tag, the same for every call of one load.
    pub version: u32,
    /// The state pointer read for this load, the same for every call of it.
    pub state: u64,
}

/// What one firing of the game-load detour owes: one forwarded call of the
/// original routine, then the observer invocations in order.
#[derive(Debug)]
pub struct GameLoadPlan {
    /// Version tag to forward to the original routine, before any observer
    /// runs.
    pub forward_version: u32,
    /// The observer invocations, in registration order.
    pub calls: Vec<ObserverCall>,
}

/// The plan owed for a load with tag `version`, freshly read state pointer
/// `state`, and `n` registered observers.
pub open spec fn dispatch_ok(plan: GameLoadPlan, version: u32, state: u64, n: int) -> bool {
    &&& plan.forward_version == version
    &&& plan.calls@.len() == n
    &&& forall|i: int|
        0 <= i < n ==> plan.calls@[i] == (ObserverCall {
            observer: i as usize,
            version,
            state,
        })
}

/// Address of the state-pointer field inside the structure the resolved
/// data symbol points to.
pub fn state_field_addr(struct_ptr: u64) -> (a: u64)
    ensures
        a == wrap64(struct_ptr + 0x3f8),
{
    wrapping_offset(struct_ptr, 0x3f8)
}

/// Plan one firing of the game-load detour: forward the tag to the
/// original routine, then call each of the `n_observers` registered
/// observers once, in registration order, with the tag and the state
/// pointer read for this very load.
pub fn on_game_load(version: u32, state: u64, n_observers: usize) -> (plan: GameLoadPlan)
    ensures
        dispatch_ok(plan, version, state, n_observers as int),
{
    let mut calls: Vec<ObserverCall> = Vec::new();
    let mut i: usize = 0;
    while i < n_observers
        invariant
            i <= n_observers,
            calls@.len() == i,
            forall|j: int|
                0 <= j < i ==> calls@[j] == (ObserverCall {
                    observer: j as usize,
                    version,
                    state,
                }),
        decreases n_observers - i,
    {
        calls.push(ObserverCall { observer: i, version, state });
        i = i + 1;
    }
    GameLoadPlan { forward_version: version, calls }
}

/// Observer ordering: a single load invokes each registered observer
/// exactly once, in registration order, all with the same tag and state
/// pointer.
pub proof fn lemma_observer_ordering(plan: GameLoadPlan, version: u32, state: u64, n: usize)
    requires
        dispatch_ok(plan, version, state, n as int),
    ensures
        forall|i: int, j: int|
            0 <= i < j < n ==> plan.calls@[i].observer < plan.calls@[j].observer,
        forall|i: int|
            0 <= i < n ==> plan.calls@[i].version == version && plan.calls@[i].state == state,
{
}

/// State freshness: the plans of two loads each carry the state pointer
/// read at their own load, so a pointer the host rewrote between loads is
/// seen by every observer of the second load.
pub proof fn lemma_state_freshness(
    first: GameLoadPlan,
    second: GameLoadPlan,
    v1: u32,
    v2: u32,
    s1: u64,
    s2: u64,
    n: int,
)
    requires
        dispatch_ok(first, v1, s1, n),
        dispatch_ok(second, v2, s2, n),
    ensures
        forall|i: int| 0 <= i < n ==> first.calls@[i].state == s1,
        forall|i: int| 0 <= i < n ==> second.calls@[i].state == s2,
{
}

} // verus!
