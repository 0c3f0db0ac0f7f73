//! The cyclic phase scheduler: an ordered, non-empty list of phases and the
//! index of the current one. Advancing wraps modulo the length, so the
//! sequence of phases cycles forever.

use vstd::prelude::*;

use crate::app::TimerType;

verus! {

/// Mathematical state of a [`PhaseScheduler`].
pub struct PhaseSchedulerView {
    pub phases: Seq<TimerType>,
    pub index: int,
}

impl PhaseSchedulerView {
    /// Non-empty list of runnable phases with a valid current index.
    pub open spec fn wf(self) -> bool {
        &&& 0 < self.phases.len()
        &&& 0 <= self.index < self.phases.len()
        &&& forall|i: int| 0 <= i < self.phases.len() ==> (#[trigger] self.phases[i]).wf()
    }
}

/// Owns the ordered phase list and the current index; the only way the
/// index moves is `advance`, which wraps at the end of the list.
pub struct PhaseScheduler {
    phases: Vec<TimerType>,
    index: usize,
}

impl View for PhaseScheduler {
    type V = PhaseSchedulerView;

    closed spec fn view(&self) -> PhaseSchedulerView {
        PhaseSchedulerView { phases: self.phases@, index: self.index as int }
    }
}

impl PhaseScheduler {
    /// A scheduler standing at the first phase of a non-empty list.
    pub fn new(phases: Vec<TimerType>) -> (scheduler: PhaseScheduler)
        requires
            0 < phases@.len(),
            forall|i: int| 0 <= i < phases@.len() ==> (#[trigger] phases@[i]).wf(),
        ensures
            scheduler@.wf(),
            scheduler@.phases == phases@,
            scheduler@.index == 0,
    {
        PhaseScheduler { phases, index: 0 }
    }

    pub fn len(&self) -> (n: usize)
        ensures
            n == self@.phases.len(),
    {
        self.phases.len()
    }

    pub fn index(&self) -> (i: usize)
        ensures
            i == self@.index,
    {
        self.index
    }

    /// The currently selected phase.
    pub fn current(&self) -> (phase: &TimerType)
        requires
            self@.wf(),
        ensures
            *phase == self@.phases[self@.index],
    {
        &self.phases[self.index]
    }

    /// Moves to the next phase, wrapping at the end of the list, and returns
    /// a copy of the newly current phase.
    pub fn advance(&mut self) -> (phase: TimerType)
        requires
            old(self)@.wf(),
        ensures
            final(self)@.wf(),
            final(self)@.phases == old(self)@.phases,
            final(self)@.index == (old(self)@.index + 1) % (old(self)@.phases.len() as int),
            phase == final(self)@.phases[final(self)@.index],
    {
        let n: usize = self.phases.len();
        self.index = (self.index + 1) % n;
        self.phases[self.index].clone()
    }
}

} // verus!
