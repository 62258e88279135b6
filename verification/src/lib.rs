//! A sandboxed build-and-execute pipeline for user-submitted source code.
//!
//! Submitted source units are materialized into a uniquely named ephemeral
//! workspace, an isolated container bound to that workspace builds and runs
//! them, and the captured output is classified into a small outcome taxonomy.
//! This crate holds the verified core: workspace planning, container
//! invocation arguments, and outcome classification. The surrounding HTTP
//! boundary and the actual filesystem and process work live outside it.

pub mod api;
pub mod compile;
pub mod compiler;
pub mod container;
mod ident;
pub mod outcome;
