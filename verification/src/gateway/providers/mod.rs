//! The providers, each with its own way of asking and of being answered.

pub mod claude_code;
pub mod cursor;
pub mod opencode;
