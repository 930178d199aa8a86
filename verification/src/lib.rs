//! Verified client core for a chunked, resumable file-upload protocol.
//!
//! A local file is split into fixed-size chunks, a content digest is computed
//! for every chunk, an upload session is negotiated with the remote provider,
//! the chunks are transmitted strictly in ascending index order, and the
//! session is committed with a final create/merge call.  The planning
//! arithmetic, the digest bookkeeping, the request construction and the
//! protocol state machine are verified; network and file I/O stay outside.

pub mod decimal;
pub mod digest;
pub mod listing;
pub mod machine;
pub mod outcome;
pub mod paths;
pub mod plan;
pub mod protocol;
pub mod store;
pub mod userinfo;

pub use digest::digest;
pub use plan::ChunkDescriptor;
pub use plan::plan;
