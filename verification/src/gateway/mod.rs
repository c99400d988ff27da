//! The gateway: speaks to the server for the providers that call it.

pub mod providers;
pub mod question;
pub mod types;
