//! The rebuild scheduler, as a state machine: wait one interval, reindex
//! every collection in a fixed order, signal that a pass completed, and
//! start over, forever. A driver loop performs each step's outside work
//! (sleeping, running the collection's rebuild task, offering the one-slot
//! completion signal) and asks for the next step.

use vstd::prelude::*;

use crate::models::entity::Entity;

verus! {

/// What the driver of the scheduler must do next.
#[derive(Clone, Copy, PartialEq, Eq, Structural, Debug)]
pub enum RunnerStep {
    /// Sleep for the configured interval.
    Wait,
    /// Run the rebuild task of this collection, all its languages.
    Reindex(Entity),
    /// Offer the one-slot "pass complete" notification; if nobody is
    /// listening it is simply not delivered.
    SignalPassComplete,
}

/// The scheduler's position inside its non-terminating cycle.
pub struct IndexerRunner {
    pos: u8,
}

impl IndexerRunner {
    /// The scheduler cycle: one wait, the four collections in order, one
    /// completion signal.
    pub open spec fn step_at(i: int) -> RunnerStep {
        if i == 0 {
            RunnerStep::Wait
        } else if i == 1 {
            RunnerStep::Reindex(Entity::Movie)
        } else if i == 2 {
            RunnerStep::Reindex(Entity::Tv)
        } else if i == 3 {
            RunnerStep::Reindex(Entity::Recipe)
        } else if i == 4 {
            RunnerStep::Reindex(Entity::Game)
        } else {
            RunnerStep::SignalPassComplete
        }
    }

    pub closed spec fn position(&self) -> int {
        self.pos as int
    }

    pub open spec fn wf(&self) -> bool {
        0 <= self.position() < 6
    }

    /// A fresh scheduler, about to wait for its first interval.
    pub fn new() -> (r: IndexerRunner)
        ensures
            r.wf(),
            r.position() == 0,
    {
        IndexerRunner { pos: 0 }
    }

    /// Hand the driver the next step of the cycle and advance.
    pub fn next_step(&mut self) -> (s: RunnerStep)
        requires
            old(self).wf(),
        ensures
            final(self).wf(),
            s == IndexerRunner::step_at(old(self).position()),
            final(self).position() == (old(self).position() + 1) % 6,
    {
        let s = match self.pos {
            0 => RunnerStep::Wait,
            1 => RunnerStep::Reindex(Entity::Movie),
            2 => RunnerStep::Reindex(Entity::Tv),
            3 => RunnerStep::Reindex(Entity::Recipe),
            4 => RunnerStep::Reindex(Entity::Game),
            _ => RunnerStep::SignalPassComplete,
        };
        if self.pos >= 5 {
            self.pos = 0;
        } else {
            self.pos = self.pos + 1;
        }
        s
    }
}

} // verus!
