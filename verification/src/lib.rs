//! Orchestration of debug-trace requests for a blockchain node.
//!
//! A request is answered either by replaying a persisted trace or by running the call
//! once in the VM while its call tree is captured. This crate holds the decisions of that
//! orchestration; reading storage, waiting for a slot and invoking the VM are left to the
//! caller, which hands the results in.

pub mod block;
pub mod call;
pub mod capture;
pub mod config;
pub mod error;
pub mod guarantees;
pub mod namespace;
pub mod outcome;
pub mod pool;
pub mod replay;
pub mod trace;
