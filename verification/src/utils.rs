//! Helpers of the command handlers: version aliases and entry listings.

pub mod mod_fetch;
pub mod mod_format;
