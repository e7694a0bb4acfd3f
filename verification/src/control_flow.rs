//! Conversions between `Result` and `ControlFlow` used to try a sequence of
//! alternatives: a successful alternative breaks out with its value, a failed
//! one continues with its error.

use vstd::prelude::*;

use core::ops::ControlFlow;

verus! {

/// Runs one alternative: success breaks with the value, failure continues
/// with the error.
pub fn to_control_flow<T, E, F: FnOnce() -> Result<T, E>>(result: F) -> (r: ControlFlow<T, E>)
    requires
        call_requires(result, ()),
    ensures
        exists|res: Result<T, E>|
            #[trigger] call_ensures(result, (), res) && r == (match res {
                Ok(t) => ControlFlow::<T, E>::Break(t),
                Err(e) => ControlFlow::<T, E>::Continue(e),
            }),
{
    match result() {
        Ok(t) => ControlFlow::Break(t),
        Err(e) => ControlFlow::Continue(e),
    }
}

/// Runs a chain of alternatives: a break is the successful value, running to
/// the end continues with the last error.
pub fn from_control_flow<T, E, F: FnOnce() -> ControlFlow<T, E>>(control_flow: F) -> (r: Result<
    T,
    E,
>)
    requires
        call_requires(control_flow, ()),
    ensures
        exists|cf: ControlFlow<T, E>|
            #[trigger] call_ensures(control_flow, (), cf) && r == (match cf {
                ControlFlow::Break(t) => Ok::<T, E>(t),
                ControlFlow::Continue(e) => Err::<T, E>(e),
            }),
{
    match control_flow() {
        ControlFlow::Break(t) => Ok(t),
        ControlFlow::Continue(e) => Err(e),
    }
}

} // verus!
