//! Name resolution for a command-line lookup tool.
//!
//! The operating system's resolver does the actual work; this library decides
//! what is handed to it and what is made of its answer. Every decision is a
//! function from plain values to plain values, so that the caller can carry
//! out the blocking system call in whatever context suits it.

pub mod address;
pub mod cli;
pub mod resolver;
