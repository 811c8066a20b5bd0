//! The background cache of a chat bot: records are fetched page by page
//! from a source that may fail, published as whole snapshots, refreshed on a
//! schedule, and searched by the command handlers without waiting for the
//! network.
//!
//! - [`fetcher`] sorts the answer to one page request into data, not-found
//!   and transient error.
//! - [`paginator`] is one refresh run: which page to ask for next, and what
//!   the run comes to.
//! - [`store`] and [`mod_cache`] hold the snapshots that readers see.
//! - [`scheduler`] lets one run be in flight at a time and paces the first
//!   population at startup.
//! - [`query`] looks records up by name in a snapshot.
//! - [`commands`], [`mod_utils`], [`utils`] and [`map_cache`] hold what the
//!   command handlers compute from the cached records.
//! - [`text`], [`bytes`] and [`decimal`] are the rules on text that the
//!   others share.
//!
//! Fetching, waiting and sending are the caller's work: the library decides,
//! the caller acts.

pub mod bytes;
pub mod commands;
pub mod decimal;
pub mod fetcher;
pub mod map_cache;
pub mod mod_cache;
pub mod mod_utils;
pub mod paginator;
pub mod query;
pub mod record;
pub mod scheduler;
pub mod store;
pub mod text;
pub mod types;
pub mod utils;
