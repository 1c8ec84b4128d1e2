//! Pipeline health monitoring for Bitbucket Cloud: classification of pipeline
//! payloads, aggregation into one status snapshot, the decisions of a polling
//! cycle and the menu model shown to the user.
//!
//! Every function is verified against its contract, but for the few in
//! `outside`, which call into other crates and whose contracts are taken on
//! trust. Network, disk and window-system work is left to the caller, which
//! hands in plain values and performs the requests that the library plans.

pub mod bitbucket;
pub mod commands;
pub mod config;
pub mod outside;
pub mod polling;
pub mod text;
pub mod tray;
