//! What the hook, the gateway and the server say to each other.

pub mod approval;
pub mod question;
pub mod secret;
pub mod session;
pub mod tool;
