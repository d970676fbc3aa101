//! Watches a directory tree and signals a process on each qualifying change.
//!
//! The library holds the decisions: which events qualify, how the target
//! process identifier is obtained and re-obtained, and how the dispatch engine
//! moves between its states. Reading files, watching the tree and printing are
//! left to the program around it.

pub mod config;
pub mod event;
pub mod pid;
pub mod signal;
pub mod engine;
