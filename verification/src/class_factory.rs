//! Class factory bookkeeping.
//!
//! The factory the module hands to its host counts as one live served
//! object for as long as it exists; the host notes its destruction
//! with [`crate::dll_module::decrement_object_count`].

use crate::dll_module::{increment_object_count, ModuleState};
use vstd::prelude::*;

verus! {

/// Factory for the text service object.
pub struct ClassFactory;

impl ClassFactory {
    /// A new factory, counted as one live object of the module.
    pub fn new(state: &mut ModuleState) -> (r: Self)
        ensures
            old(state).object_count < u32::MAX ==> final(state).object_count == old(
                state,
            ).object_count + 1,
            old(state).object_count == u32::MAX ==> final(state).object_count == 0,
            final(state).server_lock_count == old(state).server_lock_count,
    {
        increment_object_count(state);
        ClassFactory
    }
}

} // verus!
