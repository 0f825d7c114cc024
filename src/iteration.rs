use vstd::prelude::*;

verus! {

/// The default step budget of the iterative solver.
pub const DEFAULT_MAX_ITERATIONS: usize = 1000;

/// What the iterative solver does next.
#[derive(Clone, Copy, Debug, PartialEq, Eq, Structural)]
pub enum IterationAction {
    /// Take one more step toward the target.
    Step,
    /// Stop: the target was reached within the threshold, or the budget is spent.
    Stop,
}

/// The step budget and step count of a bounded fixed-point iteration.
///
/// The solver reports, before each step, whether the current coordinate lies within
/// the convergence threshold of its target; the controller answers with the next
/// action and counts the steps it granted.
#[derive(Clone, Copy, Debug)]
pub struct IterationControl {
    steps: usize,
    max_iterations: usize,
    stopped: bool,
}

impl IterationControl {
    /// Steps granted so far.
    pub closed spec fn spec_steps(self) -> nat {
        self.steps as nat
    }

    /// The step budget.
    pub closed spec fn spec_max_iterations(self) -> nat {
        self.max_iterations as nat
    }

    /// Whether the iteration has ended.
    pub closed spec fn spec_stopped(self) -> bool {
        self.stopped
    }

    /// The step count never exceeds the budget.
    pub closed spec fn wf(self) -> bool {
        self.steps <= self.max_iterations
    }

    /// The controller for a budget before any observation.
    pub closed spec fn initial(max_iterations: usize) -> IterationControl {
        IterationControl { steps: 0, max_iterations, stopped: false }
    }

    /// Whether an observation ends the iteration.
    pub closed spec fn ends_on(self, converged: bool) -> bool {
        self.stopped || converged || self.steps >= self.max_iterations
    }

    /// The controller after one observation.
    pub closed spec fn after(self, converged: bool) -> IterationControl {
        if self.ends_on(converged) {
            IterationControl { stopped: true, ..self }
        } else {
            IterationControl { steps: (self.steps + 1) as usize, ..self }
        }
    }

    /// The controller after a sequence of observations, in order.
    pub open spec fn after_all(self, observations: Seq<bool>) -> IterationControl
        decreases observations.len(),
    {
        if observations.len() == 0 {
            self
        } else {
            self.after(observations[0]).after_all(observations.drop_first())
        }
    }

    /// A controller that has granted no step yet.
    pub fn new(max_iterations: usize) -> (r: IterationControl)
        ensures
            r == IterationControl::initial(max_iterations),
            r.wf(),
            r.spec_steps() == 0,
            r.spec_max_iterations() == max_iterations,
            !r.spec_stopped(),
    {
        IterationControl { steps: 0, max_iterations, stopped: false }
    }

    /// Steps granted so far.
    pub fn steps(&self) -> (r: usize)
        ensures
            r == self.spec_steps(),
    {
        self.steps
    }

    /// The step budget.
    pub fn max_iterations(&self) -> (r: usize)
        ensures
            r == self.spec_max_iterations(),
    {
        self.max_iterations
    }

    /// Whether the iteration has ended.
    pub fn is_stopped(&self) -> (r: bool)
        ensures
            r == self.spec_stopped(),
    {
        self.stopped
    }

    /// Answers one observation of whether the current coordinate has converged.
    ///
    /// The iteration stops, for good, once it has stopped before, once the budget is
    /// spent, or when the coordinate has converged; otherwise one more step is granted
    /// and counted. So the step count never exceeds the budget, and an iteration whose
    /// first observation is convergence ends after zero steps.
    pub fn observe(&mut self, converged: bool) -> (a: IterationAction)
        requires
            old(self).wf(),
        ensures
            *final(self) == old(self).after(converged),
            a == (if old(self).ends_on(converged) {
                IterationAction::Stop
            } else {
                IterationAction::Step
            }),
            final(self).wf(),
            final(self).spec_max_iterations() == old(self).spec_max_iterations(),
            final(self).spec_steps() <= final(self).spec_max_iterations(),
            (old(self).spec_stopped() || converged || old(self).spec_steps()
                >= old(self).spec_max_iterations()) ==> (a == IterationAction::Stop
                && final(self).spec_stopped() && final(self).spec_steps() == old(self).spec_steps()),
            !(old(self).spec_stopped() || converged || old(self).spec_steps()
                >= old(self).spec_max_iterations()) ==> (a == IterationAction::Step
                && !final(self).spec_stopped() && final(self).spec_steps() == old(self).spec_steps()
                + 1),
    {
        if self.stopped || converged || self.steps >= self.max_iterations {
            self.stopped = true;
            IterationAction::Stop
        } else {
            self.steps = self.steps + 1;
            IterationAction::Step
        }
    }
}

/// One observation keeps the step count within the budget and never lowers it.
proof fn lemma_after_bounded(c: IterationControl, converged: bool)
    requires
        c.wf(),
    ensures
        c.after(converged).wf(),
        c.spec_steps() <= c.after(converged).spec_steps(),
        c.after(converged).spec_max_iterations() == c.spec_max_iterations(),
{
}

/// Over any sequence of observations the step count never decreases and never
/// exceeds the budget.
pub proof fn lemma_steps_monotone_and_bounded(c: IterationControl, observations: Seq<bool>)
    requires
        c.wf(),
    ensures
        c.after_all(observations).wf(),
        c.spec_steps() <= c.after_all(observations).spec_steps(),
        c.after_all(observations).spec_steps() <= c.spec_max_iterations(),
        c.after_all(observations).spec_max_iterations() == c.spec_max_iterations(),
    decreases observations.len(),
{
    if observations.len() > 0 {
        lemma_after_bounded(c, observations[0]);
        lemma_steps_monotone_and_bounded(c.after(observations[0]), observations.drop_first());
    }
}

/// Once stopped, an iteration stays stopped and takes no further step.
proof fn lemma_stopped_stays(c: IterationControl, observations: Seq<bool>)
    requires
        c.spec_stopped(),
    ensures
        c.after_all(observations).spec_stopped(),
        c.after_all(observations).spec_steps() == c.spec_steps(),
    decreases observations.len(),
{
    if observations.len() > 0 {
        assert(c.ends_on(observations[0]));
        lemma_stopped_stays(c.after(observations[0]), observations.drop_first());
    }
}

/// An iteration whose first observation is convergence (as when the source already
/// is the target) stops after zero steps, whatever is observed afterwards.
pub proof fn lemma_converged_at_start_takes_no_step(max_iterations: usize, rest: Seq<bool>)
    ensures
        IterationControl::initial(max_iterations).after_all(seq![true] + rest).spec_steps() == 0,
        IterationControl::initial(max_iterations).after_all(seq![true] + rest).spec_stopped(),
{
    let c = IterationControl::initial(max_iterations);
    let obs = seq![true] + rest;
    assert(obs[0]);
    assert(obs.drop_first() =~= rest);
    assert(c.after(true).spec_stopped());
    assert(c.after(true).spec_steps() == 0);
    lemma_stopped_stays(c.after(true), rest);
}

} // verus!
