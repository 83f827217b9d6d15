//! A "be right back" overlay: a countdown, a line of text and a live chat feed,
//! redrawn on a fixed cadence by a single-threaded loop.
//!
//! This crate holds the verified model behind that loop; the terminal, the
//! network client and the process handling live with the binary.

pub mod args;
pub mod chat;
pub mod config;
pub mod countdown;
pub mod state;
pub mod text;
