//! Lowering of a control-flow-graph function body into the tree form that a
//! code-generating backend consumes.
//!
//! The backend's nodes live in an explicit arena ([`gcc_api::Backend`]); the
//! lowering in [`mir2gimple`] fills it through the construction entry points
//! of [`gcc_api`] and never reads a node back.

pub mod gcc_api;
pub mod laws;
pub mod mir;
pub mod mir2gimple;
pub mod tree_codes;
