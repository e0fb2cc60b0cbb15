//! What a failed iteration does to the loop that ran it.
//!
//! Every probe is a loop on a fixed period. The latency and speed-test loops
//! log a failure and go on with the next tick; the router loop ends with its
//! first failure. A [`Supervisor`] holds which of the two a loop does and
//! whether it has ended.

use vstd::prelude::*;
use crate::failure::Failure;
use crate::metric::Sample;

verus! {

/// What a loop does after an iteration that failed.
#[derive(Clone, Copy, Debug, PartialEq, Eq, Structural)]
pub enum Policy {
    /// Go on with the next tick.
    Resume,
    /// End the loop.
    Halt,
}

/// When a loop runs: first after `delay_secs`, then every `period_secs`.
#[derive(Clone, Copy, Debug, PartialEq, Eq, Structural)]
pub struct Schedule {
    pub delay_secs: u64,
    pub period_secs: u64,
}

/// The standing of one loop: its policy, and the failure that ended it if
/// one did.
#[derive(Clone, Copy, Debug, PartialEq, Eq, Structural)]
pub struct Supervisor {
    pub policy: Policy,
    pub halted: Option<Failure>,
}

impl Supervisor {
    /// A loop that has not run yet.
    pub open spec fn new_spec(policy: Policy) -> Supervisor {
        Supervisor { policy, halted: None }
    }

    /// A loop that has not run yet.
    #[verifier::when_used_as_spec(new_spec)]
    pub fn new(policy: Policy) -> (r: Supervisor)
        ensures
            r == Supervisor::new_spec(policy),
    {
        Supervisor { policy, halted: None }
    }

    /// Whether the loop still runs its iterations.
    pub open spec fn running(self) -> bool {
        self.halted is None
    }

    /// Whether the loop still runs its iterations.
    pub fn is_running(&self) -> (r: bool)
        ensures
            r == self.running(),
    {
        self.halted.is_none()
    }

    /// The standing after an iteration that ended with `outcome`, `None` being
    /// success. Only a failure under [`Policy::Halt`] changes anything, and
    /// only once.
    pub open spec fn after(self, outcome: Option<Failure>) -> Supervisor {
        if self.running() && outcome is Some && self.policy == Policy::Halt {
            Supervisor { policy: self.policy, halted: outcome }
        } else {
            self
        }
    }

    /// The standing after a run of iterations, first outcome first.
    pub open spec fn after_all(self, outcomes: Seq<Option<Failure>>) -> Supervisor
        decreases outcomes.len(),
    {
        if outcomes.len() == 0 {
            self
        } else {
            self.after(outcomes[0]).after_all(outcomes.skip(1))
        }
    }

    /// Records how an iteration ended.
    pub fn settle(&mut self, outcome: Option<Failure>)
        ensures
            *final(self) == old(self).after(outcome),
    {
        if self.halted.is_none() && outcome.is_some() && self.policy == Policy::Halt {
            self.halted = outcome;
        }
    }

    /// Takes in what an iteration gave and hands back what to publish: the
    /// iteration's samples, none after a failure.
    pub fn conclude(&mut self, outcome: Result<Vec<Sample>, Failure>) -> (r: Vec<Sample>)
        ensures
            *final(self) == old(self).after(failure_of(outcome)),
            r@ == published(outcome),
    {
        match outcome {
            Ok(samples) => {
                self.settle(None);
                samples
            },
            Err(e) => {
                self.settle(Some(e));
                Vec::new()
            },
        }
    }
}

/// The failure of an iteration, if it failed.
pub open spec fn failure_of(outcome: Result<Vec<Sample>, Failure>) -> Option<Failure> {
    match outcome {
        Ok(_) => None,
        Err(e) => Some(e),
    }
}

/// The samples that an iteration leaves to publish.
pub open spec fn published(outcome: Result<Vec<Sample>, Failure>) -> Seq<Sample> {
    match outcome {
        Ok(samples) => samples@,
        Err(_) => Seq::empty(),
    }
}

/// Under [`Policy::Resume`] no run of outcomes, failures included, ends the
/// loop: the tick after a failed iteration finds it running.
pub proof fn lemma_resume_never_halts(s: Supervisor, outcomes: Seq<Option<Failure>>)
    requires
        s.policy == Policy::Resume,
        s.running(),
    ensures
        s.after_all(outcomes) == s,
    decreases outcomes.len(),
{
    if outcomes.len() > 0 {
        lemma_resume_never_halts(s.after(outcomes[0]), outcomes.skip(1));
    }
}

/// Under [`Policy::Halt`] the first failure ends the loop and is kept.
pub proof fn lemma_halt_on_first_failure(s: Supervisor, failure: Failure)
    requires
        s.policy == Policy::Halt,
        s.running(),
    ensures
        !s.after(Some(failure)).running(),
        s.after(Some(failure)).halted == Some(failure),
{
}

/// A loop that has ended stays as it is, whatever comes after.
pub proof fn lemma_halted_is_final(s: Supervisor, outcomes: Seq<Option<Failure>>)
    requires
        !s.running(),
    ensures
        s.after_all(outcomes) == s,
    decreases outcomes.len(),
{
    if outcomes.len() > 0 {
        lemma_halted_is_final(s.after(outcomes[0]), outcomes.skip(1));
    }
}

/// Success never ends a loop.
pub proof fn lemma_success_changes_nothing(s: Supervisor)
    ensures
        s.after(None) == s,
{
}

} // verus!
