//! A verified core for a single-domain availability watcher.
//!
//! The library holds the logic of the watch: interpreting a registry
//! provider's response, validating the watcher's configuration, and the
//! state machine that drives repeated lookups, fires a one-shot
//! notification, and decides termination.  The surrounding process (HTTP,
//! SMTP, timers, signals) performs the I/O and feeds events back in.

pub mod config;
pub mod lookup;
pub mod messages;
pub mod watch;
