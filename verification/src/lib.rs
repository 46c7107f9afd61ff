//! Incremental static-analysis engine: parses source files into a modeled
//! syntax tree, runs a registered set of analysis rules against each tree,
//! and reports the resulting issues. A result cache keyed by modification
//! time and configuration fingerprint makes repeated scans cheap without
//! ever serving stale results; a change-event queue and the protocol
//! dispatch logic drive a long-running watch mode that re-analyzes files as
//! they change. All I/O (reading, statting, watching, parsing, JSON
//! transport) is the embedding program's concern and reaches the engine as
//! plain values.

pub mod cache;
pub mod events;
pub mod no_implicit_any;
pub mod protocol;
pub mod registry;
pub mod scanner;
pub mod tree;
pub mod types;
