//! Health-check wrapper around a child command: identifier validation,
//! line-buffered stream draining, report construction and the exit-code
//! protocol, all stated and proved with Verus.
pub mod identifier;
pub mod monitor;
pub mod drain;
pub mod report;
pub mod cli;
