//! Scaffolds a package skeleton and prepares the calls that hand building and
//! running over to an external build tool.
//!
//! The library decides; its caller touches the disk, the terminal and the
//! child process. Every decision is a function from plain values to plain
//! values with a proved contract.

pub mod command;
pub mod config;
pub mod document;
pub mod paint;
pub mod runner;
pub mod scaffold;
pub mod text;
pub mod tree;
