//! Polls content sources, retrieves what is new, and remembers what was retrieved.
//!
//! The crate holds the decisions of the system as verified functions on plain
//! values: the request protocol of the store and its single-writer actor
//! ([`db`]), and the per-source poll cycle with the command lines it hands to the
//! retrieval tool ([`yt_dlp`]). Running processes, threads, sockets and the
//! database file are left to the program that embeds the crate.

pub mod config;
pub mod db;
pub mod soundcloud;
pub mod text;
pub mod youtube;
pub mod yt_dlp;

use vstd::prelude::*;

verus! {

/// A source that polls on its own.
///
/// Each module gets a thread to itself.
pub trait Module: Send {
    /// Friendly name of the module.
    fn name(&self) -> String;

    /// The module's main loop.
    fn run(&self);
}

} // verus!
