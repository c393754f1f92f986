//! Supervisor logic for the embedded backend of the Oko desktop shell.
//!
//! The shell lets a front-end work against a backend process that it starts
//! itself on the local machine, or against a remote backend. This library holds
//! the decisions of the supervisor of that local process: whether a backend
//! should run, how it is started, how its identity is recorded, and how a
//! leftover process is told from an unrelated one that has inherited its
//! process id. The library touches neither files nor processes: its caller
//! reads, polls and starts, and hands the library what it found.

pub mod decimal;
pub mod error;
pub mod launch_plan;
pub mod launcher;
pub mod layout;
pub mod menu;
pub mod paths;
pub mod platform;
pub mod process;
pub mod profile;
pub mod registry;
pub mod stale;
pub mod supervisor;
pub mod text;
