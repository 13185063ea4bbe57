//! An elementary (one-dimensional, two-state) cellular automaton: the rule,
//! the cell sequence, the generation stepper and the run state machine.

pub mod rule;
pub mod cells;
pub mod step;
pub mod run;
