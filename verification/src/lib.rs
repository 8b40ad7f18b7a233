//! Rendering of pattern-identification results as a terminal table.
//!
//! Given an ordered sequence of [`records::Match`] values, [`output::PrintMode`]
//! formats them as an aligned table with a status line and writes the result to
//! standard output. The composition of every cell is specified and verified;
//! the table layout itself is delegated to the `comfy-table` crate.

pub mod describe;
pub mod output;
pub mod records;
pub mod tabulate;
