//! A verified core for a battery-powered task dashboard on a multi-color
//! electrophoretic panel.
//!
//! The crate covers the two subsystems that carry the engineering risk:
//! the task classification and ordering engine, which turns partially
//! specified due-date data into a total order and a small set of display
//! states, and the dirty-tracked compositing pipeline, which renders
//! stateful widgets onto a bit-packed frame buffer while avoiding
//! unnecessary panel refreshes. Network transport, wall-clock reading and
//! panel wake/sleep sequencing are external collaborators.

pub mod color;
pub mod compose;
pub mod controls;
pub mod cycle;
pub mod display;
mod draw;
pub mod intro;
pub mod markup;
pub mod order;
pub mod retry;
pub mod schedule;
pub mod tasks;
pub mod text;
