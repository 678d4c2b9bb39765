//! The engine of a terminal client for remote secret vaults: its caches, its
//! token policy, vault discovery, secret listing, the preload scheduler, the
//! fuzzy filter and the screen and modal state machine.
//!
//! The engine never performs I/O. It consumes key presses and the outcomes of
//! background work, and answers with the commands that the surrounding program
//! has to carry out.

pub mod app;
pub mod cache;
pub mod discovery;
pub mod events;
pub mod fuzzy;
pub mod keys;
pub mod laws;
pub mod listing;
pub mod modal;
pub mod model;
pub mod outcome;
pub mod preload;
pub mod screen;
pub mod text;
pub mod token;
