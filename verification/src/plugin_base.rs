//! The lifecycle contract every plugin class implements, and the seam the
//! bridge objects marshal through.
//!
//! The state machine: a fresh instance is uninitialized; `initialize`
//! succeeds exactly when the instance is uninitialized, so a second
//! `initialize` without an intervening `terminate` fails and changes
//! nothing; `terminate` always returns the instance to the uninitialized
//! state.

use vstd::prelude::*;

verus! {

/// The lifecycle every plugin class shares.  Capability narrowing — one
/// boxed implementation answering for several foreign interfaces — is
/// dynamic dispatch and lives with the unverified embedding; the verified
/// bridges are typed by the capability they marshal.
pub trait PluginBase: Sized {
    /// Whether `initialize` has succeeded without a following `terminate`.
    spec fn initialized(&self) -> bool;

    /// Moves the instance to the initialized state.  Succeeds exactly when
    /// the instance was uninitialized; a failed call changes nothing.
    fn initialize(&mut self) -> (r: bool)
        ensures
            r == !old(self).initialized(),
            final(self).initialized(),
            !r ==> *final(self) == *old(self),
    ;

    /// Returns the instance to the uninitialized state, releasing what
    /// `initialize` set up.
    fn terminate(&mut self) -> (r: bool)
        ensures
            r,
            !final(self).initialized(),
    ;
}

} // verus!
