//! A small countdown library: it models a countdown session that, given the
//! current time, decides whether the countdown is over and otherwise renders
//! the remaining time as an `MM:SS` byte string, skipping renders that did
//! not change since the last one.

pub mod config;
pub mod errors;
pub mod prompt;
pub mod render;
pub mod session;
