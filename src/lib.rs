//! Mirrors remote files into a local tree, as a configuration file declares.
//!
//! The library holds the decisions of a sync: decoding the configuration,
//! the header written above each mirrored file, the steps that mirror one
//! entry and the bookkeeping of a whole batch. Fetching and writing are done
//! by the caller, which reports each outcome back.
pub mod config;
pub mod entry;
pub mod json;
pub mod location;
pub mod run;
