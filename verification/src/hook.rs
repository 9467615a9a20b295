//! The setup hook that the framework invokes once while the application
//! starts.

use std::convert::Infallible;
use vstd::prelude::*;

verus! {

/// The lifecycle hook of the application. The framework hands it the
/// application under construction; the hook leaves the application as it
/// found it and reports success, whatever the application's state.
pub fn setup<A>(app: &mut A) -> (result: Result<(), Infallible>)
    ensures
        result is Ok,
        *final(app) == *old(app),
{
    Ok(())
}

} // verus!
