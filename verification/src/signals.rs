//! Termination signals.

use vstd::prelude::*;

verus! {

/// Asks the running services to stop.
pub struct Term;

/// The service that turns console interrupts into [`Term`] requests.
#[derive(Debug, PartialEq, Eq, Structural)]
pub struct WindowsSignal;

impl Default for WindowsSignal {
    fn default() -> (r: Self)
        ensures
            r == WindowsSignal,
    {
        WindowsSignal
    }
}

} // verus!
