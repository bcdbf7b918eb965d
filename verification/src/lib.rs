//! Warrant-guarded tools for an on-call agent graph.
//!
//! An orchestrator holds a signed warrant, hands narrower warrants to workers,
//! and every tool call is checked against the warrant of the agent that makes
//! it. This crate holds the rules: what each warrant grants, what a guarded
//! call returns and reports, how an MCP request is framed and answered, and
//! what the scripted models play.

pub mod attack;
pub mod authority;
pub mod behaviour;
pub mod completion_api;
pub mod constraints;
pub mod delegation;
pub mod demo;
pub mod grant;
pub mod issuer;
pub mod json;
pub mod laws;
pub mod mcp_api;
pub mod models;
pub mod provider;
pub mod rig_api;
pub mod root_key;
pub mod server;
pub mod tenuo_api;
pub mod text;
pub mod tools;

use vstd::prelude::*;

verus! {

}
