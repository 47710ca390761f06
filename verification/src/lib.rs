//! A timing harness that compares growable-array designs on one workload:
//! append the values `0..n`, read them back in order, and pop until empty.
//!
//! Everything in this crate is verified with Verus, apart from a small set of
//! trusted declarations that describe the array crates, the clock and the
//! standard sort. Each of those says in its doc comment what it assumes.

pub mod aggregate;
pub mod aggregate_laws;
pub mod bench;
pub mod clock;
pub mod config;
pub mod container;
pub mod extensible;
pub mod harness;
pub mod optimal;
pub mod phases;
pub mod report;
pub mod segment;
pub mod tarjan_general;
pub mod tarjan_simple;
pub mod vector;
