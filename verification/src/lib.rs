//! Command handlers for the desktop application shell.
//!
//! The GUI front end invokes these handlers through the application runtime;
//! each handler is an ordinary function whose behaviour is stated in its
//! contract.

use vstd::prelude::*;

verus! {

/// Handler for the front end's folder-selection request.
///
/// The handler performs no dialog interaction and touches no state: it
/// reports that no folder was chosen, on every invocation and in every
/// application state.
pub fn pick_folder() -> (r: Option<String>)
    ensures
        r is None,
{
    None
}

} // verus!
