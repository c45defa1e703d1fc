//! Core of a two-dimensional collision "black box" trainer.
//!
//! `session` fixes the protocol of every trial: which measurement is asked
//! for next, when it is perturbed, which hidden constants are drawn and in
//! what order, and when a result is revealed. `range` decides whether an
//! entered measurement lies in its range, `components` splits `x,y` vector
//! text, and `terminal` prepares the terminal.

pub mod components;
pub mod range;
pub mod session;
pub mod terminal;
