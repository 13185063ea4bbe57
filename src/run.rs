use vstd::prelude::*;
use crate::cells::Cells;
use crate::step::{next_generation, step, Settings};

verus! {

/// What a run is at a moment: the generation on show, how many steps were
/// taken, and whether input ended it early.
pub struct RunState {
    pub front: Seq<bool>,
    pub settings: Settings,
    pub generation: nat,
    pub cancelled: bool,
}

/// Whether a run in state `s` goes on: it was not cancelled and has not yet
/// shown all its generations.
pub open spec fn running(s: RunState) -> bool {
    !s.cancelled && s.generation < s.settings.generations
}

/// The state after one step: the next generation is on show.
pub open spec fn after_step(s: RunState) -> RunState {
    RunState {
        front: next_generation(s.settings.rule.0, s.settings.edge_handling, s.front),
        generation: s.generation + 1,
        ..s
    }
}

/// The state after the input poll that follows a step: pending input
/// cancels the run.
pub open spec fn after_poll(s: RunState, input_pending: bool) -> RunState {
    RunState { cancelled: s.cancelled || input_pending, ..s }
}

/// Input seen by the poll after a step ends the run: from the state that the
/// poll leaves, whatever came before, no further step is taken, and the
/// generation count stays where it was.
pub proof fn pending_input_cancels(s: RunState)
    ensures
        !running(after_poll(s, true)),
        after_poll(s, true).generation == s.generation,
        after_poll(s, true).front == s.front,
{
}

/// The decisions of a run, with its two buffers. Whoever drives it shows
/// `front()` while `is_running()`, then calls `advance`, polls for input and
/// reports the outcome to `record_poll`.
pub struct Runner {
    front: Cells,
    back: Cells,
    settings: Settings,
    generation: u16,
    cancelled: bool,
}

impl View for Runner {
    type V = RunState;

    closed spec fn view(&self) -> RunState {
        RunState {
            front: self.front@,
            settings: self.settings,
            generation: self.generation as nat,
            cancelled: self.cancelled,
        }
    }
}

impl Runner {
    /// The runner's invariant: the front buffer is a valid sequence of the
    /// initial width, and no more steps were taken than the settings ask.
    pub open spec fn wf(&self) -> bool {
        &&& self@.front.len() >= 3
        &&& self@.generation <= self@.settings.generations
    }

    /// A run that starts from `initial`, with nothing shown yet.
    pub fn new(initial: Cells, settings: Settings) -> (r: Runner)
        requires
            initial.wf(),
        ensures
            r.wf(),
            r@ == (RunState { front: initial@, settings, generation: 0, cancelled: false }),
    {
        let width = initial.0.len();
        Runner { front: initial, back: Cells(Vec::with_capacity(width)), settings, generation: 0, cancelled: false }
    }

    /// The generation to show now.
    pub fn front(&self) -> (r: &Cells)
        requires
            self.wf(),
        ensures
            r@ == self@.front,
            r.wf(),
    {
        &self.front
    }

    /// The settings of the run.
    pub fn settings(&self) -> (r: &Settings)
        ensures
            *r == self@.settings,
    {
        &self.settings
    }

    /// Whether the run goes on.
    pub fn is_running(&self) -> (r: bool)
        ensures
            r == running(self@),
    {
        !self.cancelled && self.generation < self.settings.generations
    }

    /// Computes the next generation into the back buffer and swaps the two.
    pub fn advance(&mut self)
        requires
            old(self).wf(),
            running(old(self)@),
        ensures
            final(self).wf(),
            final(self)@ == after_step(old(self)@),
    {
        let mut front = Cells(Vec::new());
        let mut back = Cells(Vec::new());
        core::mem::swap(&mut front, &mut self.front);
        core::mem::swap(&mut back, &mut self.back);
        let (new_front, new_back) = step(front, back, &self.settings);
        self.front = new_front;
        self.back = new_back;
        self.generation = self.generation + 1;
    }

    /// Records what the input poll after a step saw: pending input ends the
    /// run.
    pub fn record_poll(&mut self, input_pending: bool)
        requires
            old(self).wf(),
        ensures
            final(self).wf(),
            final(self)@ == after_poll(old(self)@, input_pending),
    {
        if input_pending {
            self.cancelled = true;
        }
    }
}

} // verus!
