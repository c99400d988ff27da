//! The hook: routes a tool call by rules, or asks the server about it.

pub mod config;
pub mod output;
pub mod patterns;
pub mod remote;
pub mod run;
