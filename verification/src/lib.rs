//! Core of a terminal-resident countdown timer that cycles through a fixed
//! sequence of named phases (for example "Work" and "Rest").
//!
//! The crate holds the verified logic only: the per-phase countdown engine
//! ([`timer::Timer`]), the cyclic phase scheduler
//! ([`scheduler::PhaseScheduler`]), and the controller state that owns the
//! display snapshot ([`app::App`]). Threads, channels, key reading and the
//! actual terminal rendering live outside, in the binary that drives these
//! types; they exchange plain values (events and commands) with this core.

pub mod app;
pub mod scheduler;
pub mod timer;
