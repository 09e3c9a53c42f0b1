//! The Fibonacci state machine: two unsigned registers advanced by a
//! constant-time step, with a reset back to the initial sentinel state.

use vstd::prelude::*;

verus! {

/// The mathematical Fibonacci sequence with `fib(0) == 0`, `fib(1) == 1`.
pub open spec fn fib(n: nat) -> nat
    decreases n,
{
    if n <= 1 {
        n
    } else {
        fib((n - 1) as nat) + fib((n - 2) as nat)
    }
}

/// Every term from the first onward is at least one; only `fib(0)` is zero.
pub proof fn lemma_fib_positive(n: nat)
    requires
        n >= 1,
    ensures
        fib(n) >= 1,
    decreases n,
{
    if n >= 2 {
        lemma_fib_positive((n - 1) as nat);
    }
}

/// An incremental Fibonacci generator.
///
/// `current` is the externally visible term and `previous` the one before
/// it; `step` counts how many times the state has been advanced since it
/// was fresh, so that a well-formed state at step `n` shows `fib(n)`.
pub struct FibState {
    pub previous: usize,
    pub current: usize,
    pub step: Ghost<nat>,
}

impl FibState {
    /// The registers hold consecutive Fibonacci terms for the step counter:
    /// at step 0 the sentinel pair `(0, 0)`, at step `n >= 1` the pair
    /// `(fib(n - 1), fib(n))`.
    pub open spec fn wf(self) -> bool {
        &&& self.current == fib(self.step@)
        &&& if self.step@ == 0 {
            self.previous == 0
        } else {
            self.previous == fib((self.step@ - 1) as nat)
        }
    }

    /// A fresh generator in the sentinel state, showing the leading zero term.
    pub fn new() -> (r: FibState)
        ensures
            r.wf(),
            r.step@ == 0,
            r.previous == 0,
            r.current == 0,
    {
        FibState { previous: 0, current: 0, step: Ghost(0) }
    }

    /// The current term of the sequence. Pure accessor, never fails.
    pub fn value(&self) -> (r: usize)
        ensures
            r == self.current,
            self.wf() ==> r == fib(self.step@),
    {
        self.current
    }

    /// Advance to the next term.
    ///
    /// From the sentinel (or true zero) state the value becomes 1; otherwise
    /// the registers take the standard two-register step. Overflow is ruled
    /// out by the precondition: the next term must fit the register width,
    /// so this library traps the boundary by contract rather than wrapping.
    /// Returns a handle to `self` that reflects the post-mutation state.
    pub fn calc_next(&mut self) -> (r: &Self)
        requires
            old(self).wf(),
            fib(old(self).step@ + 1) <= usize::MAX,
        ensures
            final(self).wf(),
            final(self).step@ == old(self).step@ + 1,
            final(self).previous == fib(old(self).step@),
            final(self).current == fib(old(self).step@ + 1),
            *r == *final(self),
    {
        proof {
            // A zero register means step zero and the other way round.
            if self.step@ >= 1 {
                lemma_fib_positive(self.step@);
            }
        }
        match self.current {
            0 => {
                self.current = 1;
            }
            _ => {
                assert(fib(self.step@ + 1) == fib(self.step@) + fib((self.step@ - 1) as nat));
                self.current = self.current + self.previous;
                self.previous = self.current - self.previous;
            }
        }
        self.step = Ghost(self.step@ + 1);
        self
    }

    /// Reinitialize to the sentinel state `(0, 0)`. Always succeeds, from
    /// any state, and lands in the same observable state as [`FibState::new`].
    /// Returns a handle to `self` that reflects the post-mutation state.
    pub fn reset(&mut self) -> (r: &Self)
        ensures
            final(self).wf(),
            final(self).step@ == 0,
            final(self).previous == 0,
            final(self).current == 0,
            *r == *final(self),
    {
        self.previous = 0;
        self.current = 0;
        self.step = Ghost(0);
        self
    }
}

/// A well-formed state always shows the Fibonacci term of its step, and for
/// steps past the first that term obeys the two-term recurrence.
pub proof fn lemma_recurrence(s: FibState)
    requires
        s.wf(),
    ensures
        s.current == fib(s.step@),
        s.step@ >= 2 ==> s.current == fib((s.step@ - 1) as nat) + fib((s.step@ - 2) as nat),
{
}

/// A well-formed state at step zero is observably fresh: both registers are
/// zero, so resetting (which returns to step zero) cannot be told apart from
/// constructing anew.
pub proof fn lemma_step_zero_is_fresh(s: FibState)
    requires
        s.wf(),
        s.step@ == 0,
    ensures
        s.current == 0,
        s.previous == 0,
{
}

} // verus!
