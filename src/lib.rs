//! Core of a minimal init process: the decisions of service supervision,
//! output capture, shutdown escalation and zombie reaping, stated and proved.

pub mod config;
pub mod escalation;
pub mod lines;
pub mod signal;
pub mod supervisor;
pub mod wait;
