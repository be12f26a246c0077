//! State machine of a touch-driven shell overlay: a persistent panel and a
//! drawer that is dragged open from it.
//!
//! The crate holds no I/O. Every handler of [`state::State`] takes plain
//! values, updates the state and answers with the [`window::Effect`]s that
//! the caller has to carry out, in order, on the compositor and the GPU.
//! [`shell::Shell`] says what each handler computes, and [`laws`] proves
//! what holds over whole runs of events.
//!
//! Lengths along the drawer are counted in sub-units, 256 to the logical
//! unit, which is the fixed-point format of touch coordinates on the wire:
//! no position is rounded on its way in. Times are milliseconds on a clock
//! of the caller's choice that never runs backwards.

pub mod animation;
pub mod geometry;
pub mod laws;
pub mod shell;
pub mod state;
pub mod touch;
pub mod window;
