//! The rate of a controller.
//!
//! Most controllers run at a rate that divides that of the state space
//! model. A [`RateDivider`] tells the loop of a simulation at which samples
//! such a controller is due; between them the loop holds what the controller
//! gave last.

use vstd::prelude::*;

verus! {

/// The samples at which a component is due: the first one, and from then on
/// one in every `every`.
pub struct RateDivider {
    /// The number of samples from one that is due to the next.
    pub every: usize,
    /// The number of samples since the last one that was due.
    pub phase: usize,
}

/// The phase of a divider after `n` samples, from a divider that starts.
pub open spec fn phase_after(every: int, n: nat) -> int
    decreases n,
{
    if n == 0 {
        0
    } else if phase_after(every, (n - 1) as nat) + 1 == every {
        0
    } else {
        phase_after(every, (n - 1) as nat) + 1
    }
}

impl RateDivider {
    /// The divider counts within its period.
    pub open spec fn wf(self) -> bool {
        self.phase < self.every
    }

    /// A divider for a component that is due at one sample in every `every`,
    /// starting with the next.
    pub fn new(every: usize) -> (r: Self)
        requires
            every > 0,
        ensures
            r.wf(),
            r.every == every,
            r.phase == 0,
    {
        RateDivider { every, phase: 0 }
    }

    /// Counts one sample, and tells whether the component is due at it.
    pub fn tick(&mut self) -> (due: bool)
        requires
            old(self).wf(),
        ensures
            final(self).wf(),
            final(self).every == old(self).every,
            due == (old(self).phase == 0),
            final(self).phase == if old(self).phase + 1 == old(self).every {
                0
            } else {
                old(self).phase + 1
            },
    {
        let due = self.phase == 0;
        if self.phase + 1 == self.every {
            self.phase = 0;
        } else {
            self.phase = self.phase + 1;
        }
        due
    }
}

/// A component that is due at one sample in every `every` is due at the
/// samples 0, `every`, twice `every` and so on, and at no other: after `n`
/// samples the divider has counted `n` modulo `every`.
pub proof fn lemma_due_every(every: int, n: nat)
    requires
        every > 0,
    ensures
        phase_after(every, n) == n as int % every,
    decreases n,
{
    if n > 0 {
        lemma_due_every(every, (n - 1) as nat);
        lemma_mod_step(every, n as int - 1);
    } else {
        assert(0int % every == 0) by (nonlinear_arith)
            requires
                every > 0,
        ;
    }
}

proof fn lemma_mod_step(every: int, m: int)
    by (nonlinear_arith)
    requires
        every > 0,
        m >= 0,
    ensures
        (m + 1) % every == if m % every + 1 == every {
            0
        } else {
            m % every + 1
        },
{
}

} // verus!
