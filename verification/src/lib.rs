//! A workflow engine for everyday branch handling on top of an external
//! version-control tool.
//!
//! The library never touches a terminal or a process. A workflow is a
//! function from the replies received so far to the next thing to ask for,
//! so every decision it takes is a verified function of plain values.

pub mod branch;
pub mod commands;
pub mod deletion;
pub mod dialogue;
pub mod git;
pub mod listing;
pub mod messages;
pub mod navigation;
pub mod options;
pub mod recovery;
pub mod repo;
pub mod runner;
pub mod status;
pub mod steps;
pub mod text;
pub mod workflows;
