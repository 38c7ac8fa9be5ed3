//! Sequencing of an RC measurement on a three-pin analog front-end.
//!
//! A measurement cycle charges an RC junction twice, once through each of two
//! drive pins, and times how long the sense pin takes to read high. This
//! library holds the decisions of that cycle as a state machine: the caller
//! performs each [`sequencer::Action`] on the hardware and hands back the
//! [`sequencer::Event`] that resulted. The two intervals that a cycle reports
//! go to [`solver::Network`], which solves the charging equation for the
//! capacitance and the resistance in exact fractions.

pub mod pins;
pub mod sequencer;
pub mod solver;
pub mod laws;
