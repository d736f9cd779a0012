//! Verified core of a desktop supervisor: the rules by which folders are
//! imported into a sandbox workspace, virtual-machine artifacts are staged,
//! backends are launched and child processes are tracked.
//!
//! Nothing in this crate touches the file system, the network or processes.
//! Every function maps plain values to plain values; the program around the
//! library performs the actions that the library decides on and reports back
//! what happened.

pub mod command;
pub mod commands;
pub mod importer;
pub mod parse;
pub mod path;
pub mod path_laws;
pub mod supervisor;
pub mod text;
pub mod vm;
