//! A library for keeping a set of local git working copies synchronized with
//! their remotes: discovery of repository roots on disk, remote-URL parsing,
//! an in-memory registry of repository records, and a synchronization engine
//! (clone, fetch, merge analysis, pull, push) built on libgit2.

pub mod config;
pub mod git;
pub mod runners;
pub mod yaml;
