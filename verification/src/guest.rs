//! The guest-module entry points: the host-facing surface of the generator.
//!
//! A plugin host owns one [`FibState`] and calls these one at a time.
//! `next` validates that the current term fits the exported 64-bit type
//! before it advances the state, so a failed call never spends a value.

use vstd::prelude::*;

use crate::fibonacci::fib;
use crate::fibonacci::FibState;

verus! {

/// Why a guest call failed: the internal term cannot be represented in the
/// exported 64-bit unsigned type. Carries the offending value so the host
/// can report it.
#[derive(Clone, Copy, Debug, PartialEq, Eq, Structural)]
pub struct RangeError {
    pub value: usize,
}

/// Return the current term, range-checked against the exported 64-bit
/// unsigned type, then advance.
///
/// Validation comes first: on a failing check the state is left untouched,
/// so the reported value is never spent. On every platform whose `usize` is
/// at most 64 bits wide the check cannot fail, so success is promised.
pub fn next(state: &mut FibState) -> (r: Result<u64, RangeError>)
    requires
        old(state).wf(),
        fib(old(state).step@ + 1) <= usize::MAX,
    ensures
        r matches Ok(v) && v == fib(old(state).step@),
        r is Ok ==> final(state).wf() && final(state).step@ == old(state).step@ + 1,
        r is Err ==> *final(state) == *old(state),
{
    let value: usize = state.value();
    match u64::try_from(value) {
        Ok(number) => {
            state.calc_next();
            Ok(number)
        },
        Err(_) => Err(RangeError { value }),
    }
}

/// Reinitialize the shared generator to the sentinel state. Always succeeds.
pub fn reset(state: &mut FibState)
    ensures
        final(state).wf(),
        final(state).step@ == 0,
        final(state).previous == 0,
        final(state).current == 0,
{
    state.reset();
}

} // verus!
