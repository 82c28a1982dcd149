//! GraphQL transport backend for Animus: the decisions and projections
//! behind the `/graphql` endpoint, stated and proved with Verus.
//!
//! The GraphQL objects, the HTTP server and the control-socket client live
//! in the application crate; everything they decide (configuration, the
//! requests sent to the daemon, how wire records become GraphQL records,
//! which routes are mounted) is computed here.

pub mod backend;
pub mod config;
pub mod control_client;
pub mod manifest;
pub mod resolvers;
pub mod server;
pub mod strings;
pub mod time;
