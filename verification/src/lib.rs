//! bettr: a local issue tracker for work shared by people and agents.
//!
//! This crate holds the verified core: the issue state machine, the
//! validation rules, the audit and idempotency policies, the web request
//! parsing and the text formatting that the command-line program uses.
#![allow(unused_imports)]

pub mod text;
pub mod error;
pub mod json;
pub mod domain;
pub mod store;
pub mod laws;
pub mod app;
pub mod cli;
pub mod output;
pub mod web;
pub mod self_update;
pub mod worktree;
