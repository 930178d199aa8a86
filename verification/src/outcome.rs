//! The outcome taxonomy of an upload and the decoded shapes of the
//! provider's replies.
//!
//! Replies reach this library as plain values: the surrounding I/O layer
//! performs the HTTP exchange and decodes the body, and reports here either
//! the decoded reply or the way the exchange failed.

use vstd::prelude::*;

verus! {

/// What went wrong, by responsibility.
#[derive(Clone, Copy, Debug, PartialEq, Eq, Structural)]
pub enum ErrorKind {
    /// The local file is missing, is not a regular file, or a read returned
    /// fewer bytes than planned.
    LocalFileError,
    /// The network exchange itself failed.
    TransportError,
    /// The provider answered with a non-success HTTP status, a non-zero
    /// status code of its own, or an undecodable body.
    ProtocolError,
    /// An otherwise successful reply lacks a field the protocol requires.
    ContractViolation,
}

/// The committed remote file, as the final create/merge reply describes it.
#[derive(Clone, Debug)]
pub struct RemoteFileDescriptor {
    /// Provider-assigned file identifier.
    pub fs_id: u64,
    /// Content digest the provider recorded.
    pub md5: String,
    /// Remote path of the committed file.
    pub path: String,
    /// Size in bytes.
    pub size: u64,
    /// Creation timestamp, seconds since the epoch.
    pub ctime: u64,
    /// Modification timestamp, seconds since the epoch.
    pub mtime: u64,
}

/// The terminal result of one upload request.
#[derive(Clone, Debug)]
pub enum UploadOutcome {
    /// The session was committed; the descriptor is the provider's answer.
    Success(RemoteFileDescriptor),
    /// Some step failed; the upload stopped there, with a detail string for
    /// the caller to surface.
    Failure(ErrorKind, String),
}

/// How one HTTP exchange with the provider ended, as the I/O layer reports
/// it: a decoded reply, or one of the ways the exchange can fail before a
/// reply exists.
pub enum ExchangeResult<T> {
    /// A success HTTP status with a decodable body.
    Reply(T),
    /// The request never completed: network, DNS or TLS failure.
    TransportFailed(String),
    /// The provider answered with a non-success HTTP status.
    HttpFailed(u16, String),
    /// The body of a success status could not be decoded.
    Undecodable(String),
}

/// The decoded precreate reply: the provider's status code and, when it
/// opened a session, the session identifier.
pub struct PrecreateReply {
    /// Provider status code; zero means success.
    pub errno: i64,
    /// The upload session identifier, when present.
    pub uploadid: Option<String>,
}

/// The decoded acknowledgment of one chunk transmission.
pub struct ChunkAck {
    /// Digest echoed by the provider, when present and non-empty.
    pub md5: Option<String>,
}

/// The decoded create/merge reply.
pub struct CreateReply {
    /// Provider status code; zero means success.
    pub errno: i64,
    /// Provider-assigned file identifier.
    pub fs_id: u64,
    /// Content digest the provider recorded.
    pub md5: String,
    /// Remote path of the committed file.
    pub path: String,
    /// Size in bytes.
    pub size: u64,
    /// Creation timestamp, seconds since the epoch.
    pub ctime: u64,
    /// Modification timestamp, seconds since the epoch.
    pub mtime: u64,
}

} // verus!
