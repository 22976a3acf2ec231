//! Background engine that turns continuous edits to a watched project into
//! discrete, content-addressed snapshot commits on a dedicated history ref.
//!
//! The library holds the verified core: the session-boundary policy, the
//! index-reuse cache, the large-file externalization policy, the snapshot
//! builder and the commit-chain writer. Filesystem walking, stat calls,
//! the watch loop and notifications live in the host around it.

pub mod chain;
pub mod config;
pub mod digest;
pub mod entry;
pub mod errors;
pub mod lfs;
pub mod ids;
pub mod policy;
pub mod snapshot;
pub mod store;
pub mod text;
