//! The decision core of a terminal-session recorder.
//!
//! A recorder runs a shell inside a pseudo-terminal, relays keyboard input
//! to the shell and shell output to the terminal, and copies every byte of
//! shell output into a capture file, while the real terminal stays in raw
//! mode and is put back as it was on every way out.
//!
//! This crate holds everything about such a recorder that can be decided
//! without a system call. The caller makes the calls; the two state
//! machines here say which call comes next and what each outcome means.
//!
//! - [`session`] sequences a whole run, from the window-size query to the
//!   restoration of the terminal, and [`session_model`] is its model.
//! - [`relay`] moves the bytes while the shell runs, and [`relay_model`] is
//!   its model.
//! - [`relay_history`] and [`session_history`] state what holds of every
//!   run of the two machines: nothing typed or printed is lost, changed or
//!   reordered, and the terminal is restored exactly once.
//! - [`readiness`], [`attributes`], [`shell`], [`window`] and [`fault`]
//!   hold the values that the machines work with.
pub mod attributes;
pub mod fault;
pub mod readiness;
pub mod relay;
pub mod relay_history;
pub mod relay_model;
pub mod session;
pub mod session_history;
pub mod session_model;
pub mod shell;
pub mod window;
