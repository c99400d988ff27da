//! The server: approvals, sessions and the pages that show them.

pub mod approvals;
pub mod handlers;
pub mod laws;
pub mod model;
pub mod pages;
pub mod routes;
pub mod status;
pub mod storage;
pub mod web;
