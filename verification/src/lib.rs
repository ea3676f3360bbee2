//! The logic of a Herdr plugin that goes back to the tab that had the focus before.
//!
//! For each workspace the plugin remembers the tab that has the focus and the one that
//! had it last ([`memory`]), and keeps this in a state file ([`state`], [`storage`]).
//! Herdr calls it when a tab got the focus, when a tab was closed, and when the user
//! asks to go back ([`command`], [`json`]). Each call is a run ([`session`]) that asks
//! Herdr for what it needs to know ([`herdr`]) and updates the state.
//!
//! Nothing here runs a program or touches a file. A run says what is to be done next
//! and is told how it went. What holds of runs and of what they remember is proved in
//! [`laws`], what holds of runs at once in [`concurrent`], and what holds of each single
//! operation in [`conduct`].

pub mod clock;
pub mod command;
pub mod concurrent;
pub mod conduct;
pub mod error;
pub mod herdr;
pub mod json;
pub mod laws;
pub mod memory;
pub mod session;
pub mod state;
pub mod storage;
pub mod text;
