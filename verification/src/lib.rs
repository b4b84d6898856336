//! Resolution and caching of the Azure MCP server artifact.
//!
//! The crate picks the release asset that matches the running platform,
//! validates a remembered local copy, and drives download, extraction and
//! stale-version cleanup as a verified state machine.  All filesystem and
//! network effects are performed by the host through the actions the
//! machine emits; the decisions themselves are verified here.

pub mod cache;
pub mod command;
pub mod platform;
pub mod release;
