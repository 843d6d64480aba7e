//! Directory listing with per-entry metadata.
//!
//! The library holds the rules of a one-level directory scan: which names are
//! left out, how the attributes of a record follow from an entry's metadata,
//! and when a scan, full or capped, succeeds or fails. Reading the file system
//! is left to the caller, who hands over what it observed as plain values.

pub mod entry;
pub mod error;
pub mod listing;
pub mod outcome;
pub mod scan;
pub mod scanner;
