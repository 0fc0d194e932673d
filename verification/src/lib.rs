//! Decision core of the ctool desktop shell backend.
//!
//! Two leaf checks (a marker file under the home directory, reachability of a
//! fixed status endpoint) feed one offline-mode decision; an independent
//! toggle flips the developer-tools panel. The host runtime performs the
//! window work and the network probe; every decision on the observed facts is
//! made here.

pub mod devtools;
pub mod offline;
