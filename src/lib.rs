//! Core of a desktop client that sequences dangerous external actions:
//! a single-flight flow engine with per-step failure policy, a
//! plan-then-execute safety protocol for pushing to a git remote, and a
//! staleness-aware observer of an out-of-process worker's status record.

pub mod text;
pub mod git_safety;
pub mod run_log;
pub mod flow;
pub mod pulse;
pub mod jobs;
pub mod dispatch;
pub mod command_parser;
pub mod api;
pub mod settings;
pub mod project;
pub mod automation;
pub mod agent;
