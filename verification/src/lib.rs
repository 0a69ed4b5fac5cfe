//! Verified core of a ShareX history purge tool.
//!
//! The library parses the append-only upload history log (a bare
//! concatenation of JSON objects), selects the records that can be
//! deleted remotely, and plans and accounts for the bulk deletion
//! requests.  All file, terminal and network handling lives outside
//! the library and talks to it through plain values.

pub mod deleter;
pub mod history;
pub mod json;
pub mod timestamp;
pub mod util;
