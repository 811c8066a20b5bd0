//! What the chat commands compute from the cache: suggestions, lookups and
//! the texts of their replies. Sending is the caller's work.

pub mod map;
pub mod map_cmd;
pub mod mod_cmd;
pub mod modlist;
pub mod modsearch;
