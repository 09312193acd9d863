//! Module liveness bookkeeping.
//!
//! The host keeps one [`ModuleState`] per loaded module and asks it
//! whether the module can be unloaded: only when no served object is
//! alive and no client holds a server lock.  The counters are explicit
//! state owned by the host, one value per loaded module.

use vstd::prelude::*;

verus! {

/// Liveness counters of one loaded module.
pub struct ModuleState {
    pub object_count: u32,
    pub server_lock_count: u32,
}

impl ModuleState {
    /// Fresh state: no live objects, no server locks.
    pub fn new() -> (r: Self)
        ensures
            r.object_count == 0,
            r.server_lock_count == 0,
    {
        ModuleState { object_count: 0, server_lock_count: 0 }
    }
}

/// Notes that a served object was created.  The count wraps around
/// rather than stopping.
pub fn increment_object_count(state: &mut ModuleState)
    ensures
        old(state).object_count < u32::MAX ==> final(state).object_count == old(
            state,
        ).object_count + 1,
        old(state).object_count == u32::MAX ==> final(state).object_count == 0,
        final(state).server_lock_count == old(state).server_lock_count,
{
    if state.object_count < u32::MAX {
        state.object_count = state.object_count + 1;
    } else {
        state.object_count = 0;
    }
}

/// Notes that a served object was dropped.  The count wraps around
/// rather than stopping.
pub fn decrement_object_count(state: &mut ModuleState)
    ensures
        old(state).object_count > 0 ==> final(state).object_count == old(state).object_count - 1,
        old(state).object_count == 0 ==> final(state).object_count == u32::MAX,
        final(state).server_lock_count == old(state).server_lock_count,
{
    if state.object_count > 0 {
        state.object_count = state.object_count - 1;
    } else {
        state.object_count = u32::MAX;
    }
}

/// Adds one server lock.  The count wraps around rather than
/// stopping.
pub fn lock_server(state: &mut ModuleState)
    ensures
        old(state).server_lock_count < u32::MAX ==> final(state).server_lock_count == old(
            state,
        ).server_lock_count + 1,
        old(state).server_lock_count == u32::MAX ==> final(state).server_lock_count == 0,
        final(state).object_count == old(state).object_count,
{
    if state.server_lock_count < u32::MAX {
        state.server_lock_count = state.server_lock_count + 1;
    } else {
        state.server_lock_count = 0;
    }
}

/// Releases one server lock.  The count wraps around rather than
/// stopping.
pub fn unlock_server(state: &mut ModuleState)
    ensures
        old(state).server_lock_count > 0 ==> final(state).server_lock_count == old(
            state,
        ).server_lock_count - 1,
        old(state).server_lock_count == 0 ==> final(state).server_lock_count == u32::MAX,
        final(state).object_count == old(state).object_count,
{
    if state.server_lock_count > 0 {
        state.server_lock_count = state.server_lock_count - 1;
    } else {
        state.server_lock_count = u32::MAX;
    }
}

/// The module may unload exactly when nothing it serves is alive and
/// nobody locked it.
pub fn can_unload(state: &ModuleState) -> (r: bool)
    ensures
        r == (state.object_count == 0 && state.server_lock_count == 0),
{
    state.object_count == 0 && state.server_lock_count == 0
}

/// The number of live served objects.
pub fn object_count(state: &ModuleState) -> (r: u32)
    ensures
        r == state.object_count,
{
    state.object_count
}

/// The number of held server locks.
pub fn server_lock_count(state: &ModuleState) -> (r: u32)
    ensures
        r == state.server_lock_count,
{
    state.server_lock_count
}

} // verus!
