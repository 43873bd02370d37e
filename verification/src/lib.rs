//! A deferred, buffer-then-flush logging library.
//!
//! Call sites record structured entries (message, numeric id, severity)
//! into a [`registry::Registry`]; nothing is emitted until an explicit
//! flush drains the buffer, prints each entry according to its severity,
//! and reports a terminal failure if any entry was an unrecoverable error.

pub mod entry;
pub mod render;
pub mod registry;
