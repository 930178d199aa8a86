//! The upload orchestrator: a state machine that drives one upload request
//! from local validation through hashing, session negotiation, sequential
//! chunk transmission and the final commit.
//!
//! The machine owns every decision of the protocol; the surrounding I/O
//! layer only performs what an [`UploadAction`] asks — read a byte range,
//! send a request — and reports what came back.  Any step's failure moves
//! the machine to its terminal phase at once: no later event is accepted,
//! so no further network call can be asked for.
//!
//! A file no larger than the chunk size travels the very same path with a
//! one-chunk plan; the only difference the protocol keeps is that a missing
//! digest in the chunk acknowledgment is fatal for a single-chunk upload and
//! a soft warning for a multi-chunk one — the provider's whole-file contract
//! is stronger than its per-chunk one.

use vstd::prelude::*;
use vstd::string::{StringExecFns, StrSliceExecFns};
use crate::decimal::{i64_to_dec, u64_to_dec};
use crate::digest::{digest, digest_of, is_digest};
use crate::outcome::{
    ChunkAck, CreateReply, ErrorKind, ExchangeResult, PrecreateReply, RemoteFileDescriptor,
    UploadOutcome,
};
use crate::paths::{resolve_remote_path, resolved_path};
use crate::plan::{chunk_count, plan, plan_seq, ChunkDescriptor};
use crate::protocol::{
    chunk_upload_url, chunk_upload_url_of, create_request, json_string_array_of,
    precreate_request, string_views, CreateRequest, PrecreateRequest,
};

verus! {

/// Chunk size this client uses when the caller picks none: 4 MiB.
pub const CHUNK_SIZE: u64 = 4 * 1024 * 1024;

/// Where one upload request stands.
#[derive(Clone, Copy, Debug, PartialEq, Eq, Structural)]
pub enum Phase {
    /// Waiting to hear whether the local path names a regular file.
    Validating,
    /// Hashing pass: waiting for the bytes of the next planned chunk.
    Hashing,
    /// Precreate sent; waiting for the provider to open a session.
    Negotiating,
    /// Transmission pass: waiting for the bytes of the next chunk to send.
    ReadingChunk,
    /// One chunk sent; waiting for its acknowledgment.
    AwaitingAck,
    /// Create/merge sent; waiting for the committed file's descriptor.
    Committing,
    /// Terminal: the outcome is set and no further event is accepted.
    Finished,
}

/// What the I/O layer is asked to do next.
#[derive(Debug)]
pub enum UploadAction {
    /// Read exactly `length` bytes of the local file starting at `offset`
    /// and hand them back.
    ReadRange { offset: u64, length: u32 },
    /// Send the session-opening call and report the decoded reply.
    SendPrecreate(PrecreateRequest),
    /// Post `bytes` as the multipart body of the chunk-upload URL and report
    /// the decoded acknowledgment.
    SendChunk { url: String, index: u32, bytes: Vec<u8> },
    /// Send the session-committing call and report the decoded reply.
    SendCreate(CreateRequest),
    /// Nothing more to do: the machine is finished and `outcome` is set.
    Done,
}

/// An action that reaches the network.
pub open spec fn is_network_action(act: UploadAction) -> bool {
    ||| act is SendPrecreate
    ||| act is SendChunk
    ||| act is SendCreate
}

/// The state machine of one upload request.
pub struct UploadMachine {
    /// Bearer token attached to every outbound call.
    pub access_token: String,
    /// Resolved remote path of the file.
    pub remote_path: String,
    /// Size of every chunk but the last.
    pub chunk_size: u64,
    /// Declared total size; set when the local file is validated.
    pub file_size: u64,
    /// The chunk plan; set when the local file is validated.
    pub plan: Vec<ChunkDescriptor>,
    /// Digest of every hashed chunk, in chunk order.
    pub digests: Vec<String>,
    /// The bytes each digest was computed over, kept for specification only.
    pub hashed_chunks: Ghost<Seq<Seq<u8>>>,
    /// Session identifier; set when negotiation succeeds.
    pub session_id: String,
    /// Chunks hashed so far.
    pub hashed: usize,
    /// Chunks transmitted and acknowledged so far.
    pub sent: usize,
    /// Where the request stands.
    pub phase: Phase,
    /// The terminal result; set exactly when the phase is `Finished`.
    pub outcome: Option<UploadOutcome>,
}

impl UploadMachine {
    /// Shape every reachable state keeps: the plan matches the declared
    /// size, each recorded digest is a well-formed digest of the bytes it
    /// was computed over, and the progress counters stay inside the plan.
    pub open spec fn wf(self) -> bool {
        &&& 1 <= self.chunk_size <= u32::MAX
        &&& self.digests@.len() == self.hashed
        &&& self.hashed_chunks@.len() == self.hashed
        &&& forall|i: int| 0 <= i < self.hashed ==> is_digest(#[trigger] self.digests@[i]@)
        &&& forall|i: int|
            0 <= i < self.hashed ==> (#[trigger] self.digests@[i]@) == digest_of(
                self.hashed_chunks@[i],
            )
        &&& self.phase is Validating ==> self.hashed == 0 && self.sent == 0
        &&& self.is_active() ==> {
            &&& self.plan@ == plan_seq(self.file_size, self.chunk_size)
            &&& self.plan@.len() == chunk_count(self.file_size, self.chunk_size)
            &&& self.plan@.len() <= u32::MAX
        }
        &&& self.hashed <= self.plan@.len()
        &&& self.sent <= self.plan@.len()
        &&& self.phase is Hashing ==> self.hashed < self.plan@.len() && self.sent == 0
        &&& self.phase is Negotiating ==> self.hashed == self.plan@.len() && self.sent == 0
        &&& self.phase is ReadingChunk ==> self.hashed == self.plan@.len() && self.sent
            < self.plan@.len()
        &&& self.phase is AwaitingAck ==> self.hashed == self.plan@.len() && self.sent
            < self.plan@.len()
        &&& self.phase is Committing ==> self.hashed == self.plan@.len() && self.sent
            == self.plan@.len()
        &&& self.phase is Finished <==> self.outcome is Some
    }

    /// The machine is past validation and not yet finished: the phases in
    /// which the plan is consulted.
    pub open spec fn is_active(self) -> bool {
        ||| self.phase is Hashing
        ||| self.phase is Negotiating
        ||| self.phase is ReadingChunk
        ||| self.phase is AwaitingAck
        ||| self.phase is Committing
    }

    /// The token, path and chunk size never change after construction.
    pub open spec fn config_unchanged(pre: Self, post: Self) -> bool {
        &&& post.access_token == pre.access_token
        &&& post.remote_path == pre.remote_path
        &&& post.chunk_size == pre.chunk_size
    }

    /// Everything but the phase and the outcome is as it was.
    pub open spec fn core_unchanged(pre: Self, post: Self) -> bool {
        &&& Self::config_unchanged(pre, post)
        &&& post.file_size == pre.file_size
        &&& post.plan == pre.plan
        &&& post.digests == pre.digests
        &&& post.hashed_chunks == pre.hashed_chunks
        &&& post.session_id == pre.session_id
        &&& post.hashed == pre.hashed
        &&& post.sent == pre.sent
    }

    /// The machine ended in failure of the given kind.
    pub open spec fn failed_with(self, kind: ErrorKind) -> bool {
        &&& self.phase is Finished
        &&& self.outcome matches Some(UploadOutcome::Failure(k, _)) && k == kind
    }

    /// The machine ended with a committed remote file.
    pub open spec fn succeeded(self) -> bool {
        &&& self.phase is Finished
        &&& self.outcome matches Some(UploadOutcome::Success(_))
    }

    /// Start an upload of `file_name` into `remote_dir`: the remote path is
    /// resolved here, and the first thing to learn is whether the local path
    /// names a regular file.
    pub fn new(access_token: &str, remote_dir: &str, file_name: &str, chunk_size: u64) -> (m: Self)
        requires
            1 <= chunk_size <= u32::MAX,
        ensures
            m.wf(),
            m.phase is Validating,
            m.access_token@ == access_token@,
            m.remote_path@ == resolved_path(remote_dir@, file_name@),
            m.chunk_size == chunk_size,
            m.outcome is None,
    {
        UploadMachine {
            access_token: String::from_str(access_token),
            remote_path: resolve_remote_path(remote_dir, file_name),
            chunk_size,
            file_size: 0,
            plan: Vec::new(),
            digests: Vec::new(),
            hashed_chunks: Ghost(Seq::empty()),
            session_id: String::new(),
            hashed: 0,
            sent: 0,
            phase: Phase::Validating,
            outcome: None,
        }
    }

    /// Move to the terminal phase with a failure outcome.
    fn fail(&mut self, kind: ErrorKind, detail: String) -> (act: UploadAction)
        ensures
            Self::core_unchanged(*old(self), *final(self)),
            final(self).phase is Finished,
            final(self).outcome matches Some(UploadOutcome::Failure(k, d)) && k == kind && d@
                == detail@,
            final(self).failed_with(kind),
            act is Done,
    {
        self.phase = Phase::Finished;
        self.outcome = Some(UploadOutcome::Failure(kind, detail));
        UploadAction::Done
    }

    /// Report whether the local path names a regular file, and its size.
    ///
    /// A path that is missing or not a regular file ends the upload at once
    /// with a local-file failure and no network action is ever produced;
    /// otherwise the plan is drawn up and the hashing pass begins with the
    /// first chunk.
    pub fn on_local_checked(&mut self, is_regular_file: bool, size: u64) -> (act: UploadAction)
        requires
            old(self).wf(),
            old(self).phase is Validating,
            is_regular_file ==> chunk_count(size, old(self).chunk_size) <= u32::MAX,
        ensures
            final(self).wf(),
            Self::config_unchanged(*old(self), *final(self)),
            !is_regular_file ==> {
                &&& final(self).failed_with(ErrorKind::LocalFileError)
                &&& act is Done
                &&& !is_network_action(act)
            },
            is_regular_file ==> {
                &&& final(self).phase is Hashing
                &&& final(self).file_size == size
                &&& final(self).plan@ == plan_seq(size, old(self).chunk_size)
                &&& final(self).hashed == 0
                &&& final(self).outcome is None
                &&& act matches UploadAction::ReadRange { offset, length } && offset == plan_seq(
                    size,
                    old(self).chunk_size,
                )[0].offset && length == plan_seq(size, old(self).chunk_size)[0].length
            },
    {
        if !is_regular_file {
            return self.fail(
                ErrorKind::LocalFileError,
                String::from_str("local path is missing or is not a regular file"),
            );
        }
        self.file_size = size;
        self.plan = plan(size, self.chunk_size);
        self.phase = Phase::Hashing;
        proof {
            crate::plan::lemma_plan_covers_file(size, self.chunk_size);
        }
        let first = self.plan[0];
        UploadAction::ReadRange { offset: first.offset, length: first.length }
    }

    /// Hand the machine the bytes of the chunk it is hashing.
    ///
    /// A read that did not return exactly the planned length is a fatal
    /// local-file failure.  Otherwise the chunk's digest is recorded; the
    /// next chunk is asked for until the whole plan is hashed, and then the
    /// session-opening call carries the complete digest list.
    pub fn on_hash_bytes(&mut self, bytes: Vec<u8>) -> (act: UploadAction)
        requires
            old(self).wf(),
            old(self).phase is Hashing,
        ensures
            final(self).wf(),
            Self::config_unchanged(*old(self), *final(self)),
            final(self).file_size == old(self).file_size,
            final(self).plan == old(self).plan,
            bytes@.len() != old(self).plan@[old(self).hashed as int].length ==> {
                &&& final(self).failed_with(ErrorKind::LocalFileError)
                &&& final(self).digests == old(self).digests
                &&& act is Done
            },
            bytes@.len() == old(self).plan@[old(self).hashed as int].length ==> {
                &&& final(self).hashed == old(self).hashed + 1
                &&& final(self).hashed_chunks@ == old(self).hashed_chunks@.push(bytes@)
                &&& final(self).digests@.len() == old(self).digests@.len() + 1
                &&& final(self).digests@.last()@ == digest_of(bytes@)
                &&& final(self).outcome is None
            },
            (bytes@.len() == old(self).plan@[old(self).hashed as int].length && old(self).hashed
                + 1 < old(self).plan@.len()) ==> {
                &&& final(self).phase is Hashing
                &&& act matches UploadAction::ReadRange { offset, length } && offset == old(
                    self,
                ).plan@[old(self).hashed + 1].offset && length == old(self).plan@[old(
                    self,
                ).hashed + 1].length
            },
            (bytes@.len() == old(self).plan@[old(self).hashed as int].length && old(self).hashed
                + 1 == old(self).plan@.len()) ==> {
                &&& final(self).phase is Negotiating
                &&& act matches UploadAction::SendPrecreate(req) && req.path@ == final(self).remote_path@ && req.size == final(self).file_size && req.isdir == 0
                    && req.autoinit == 1 && req.rtype == 3 && req.block_list@
                    == json_string_array_of(string_views(final(self).digests@))
            },
    {
        let planned = self.plan[self.hashed];
        if bytes.len() != planned.length as usize {
            return self.fail(
                ErrorKind::LocalFileError,
                String::from_str("short read: a chunk returned fewer bytes than planned"),
            );
        }
        let d = digest(bytes.as_slice());
        self.digests.push(d);
        proof {
            self.hashed_chunks@ = self.hashed_chunks@.push(bytes@);
        }
        self.hashed = self.hashed + 1;
        if self.hashed < self.plan.len() {
            let next = self.plan[self.hashed];
            UploadAction::ReadRange { offset: next.offset, length: next.length }
        } else {
            self.phase = Phase::Negotiating;
            let req = precreate_request(self.remote_path.as_str(), self.file_size, &self.digests);
            UploadAction::SendPrecreate(req)
        }
    }

    /// Report how the session-opening call ended.
    ///
    /// Transport failure, a non-success HTTP status, an undecodable body and
    /// a non-zero provider status each end the upload with their own kind —
    /// before any chunk transmission is asked for.  A zero status without a
    /// session identifier is a contract violation.  Only a zero status with
    /// a session identifier starts the transmission pass.
    pub fn on_precreate_result(&mut self, result: ExchangeResult<PrecreateReply>) -> (act:
        UploadAction)
        requires
            old(self).wf(),
            old(self).phase is Negotiating,
        ensures
            final(self).wf(),
            Self::config_unchanged(*old(self), *final(self)),
            final(self).file_size == old(self).file_size,
            final(self).plan == old(self).plan,
            final(self).digests == old(self).digests,
            result is TransportFailed ==> final(self).failed_with(ErrorKind::TransportError),
            result is HttpFailed ==> final(self).failed_with(ErrorKind::ProtocolError),
            result is Undecodable ==> final(self).failed_with(ErrorKind::ProtocolError),
            result matches ExchangeResult::Reply(p) ==> {
                &&& p.errno != 0 ==> final(self).failed_with(ErrorKind::ProtocolError)
                &&& p.errno == 0 && p.uploadid is None ==> final(self).failed_with(
                    ErrorKind::ContractViolation,
                )
                &&& p.uploadid matches Some(id) ==> (p.errno == 0 ==> {
                    &&& final(self).phase is ReadingChunk
                    &&& final(self).session_id@ == id@
                    &&& final(self).sent == 0
                    &&& act matches UploadAction::ReadRange { offset, length } && offset == old(
                        self,
                    ).plan@[0].offset && length == old(self).plan@[0].length
                })
            },
            final(self).phase is Finished ==> act is Done && !is_network_action(act),
    {
        match result {
            ExchangeResult::TransportFailed(detail) => {
                let mut message = String::from_str("session negotiation never completed: ");
                message.append(detail.as_str());
                self.fail(ErrorKind::TransportError, message)
            },
            ExchangeResult::HttpFailed(status, body) => {
                let mut message = String::from_str("session negotiation answered HTTP ");
                let code = u64_to_dec(status as u64);
                message.append(code.as_str());
                message.append(": ");
                message.append(body.as_str());
                self.fail(ErrorKind::ProtocolError, message)
            },
            ExchangeResult::Undecodable(detail) => {
                let mut message = String::from_str("undecodable session negotiation reply: ");
                message.append(detail.as_str());
                self.fail(ErrorKind::ProtocolError, message)
            },
            ExchangeResult::Reply(reply) => {
                if reply.errno != 0 {
                    let mut message = String::from_str(
                        "session negotiation failed with provider status ",
                    );
                    let code = i64_to_dec(reply.errno);
                    message.append(code.as_str());
                    return self.fail(ErrorKind::ProtocolError, message);
                }
                match reply.uploadid {
                    None => self.fail(
                        ErrorKind::ContractViolation,
                        String::from_str("session identifier missing in negotiation reply"),
                    ),
                    Some(id) => {
                        self.session_id = id;
                        self.phase = Phase::ReadingChunk;
                        let first = self.plan[0];
                        UploadAction::ReadRange { offset: first.offset, length: first.length }
                    },
                }
            },
        }
    }

    /// Hand the machine the bytes of the chunk it is about to transmit.
    ///
    /// A read that did not return exactly the planned length — a short read
    /// before the end of the file — is a fatal local-file failure; the
    /// protocol never sends a chunk of the wrong length.  Otherwise the
    /// bytes go out to the chunk-upload URL, tagged with the chunk's
    /// sequence index.
    pub fn on_chunk_bytes(&mut self, bytes: Vec<u8>) -> (act: UploadAction)
        requires
            old(self).wf(),
            old(self).phase is ReadingChunk,
        ensures
            final(self).wf(),
            Self::config_unchanged(*old(self), *final(self)),
            final(self).file_size == old(self).file_size,
            final(self).plan == old(self).plan,
            final(self).digests == old(self).digests,
            final(self).session_id == old(self).session_id,
            final(self).sent == old(self).sent,
            bytes@.len() != old(self).plan@[old(self).sent as int].length ==> {
                &&& final(self).failed_with(ErrorKind::LocalFileError)
                &&& act is Done
            },
            bytes@.len() == old(self).plan@[old(self).sent as int].length ==> {
                &&& final(self).phase is AwaitingAck
                &&& act matches UploadAction::SendChunk { url, index, bytes: sent_bytes } && url@
                    == chunk_upload_url_of(
                    old(self).access_token@,
                    old(self).remote_path@,
                    old(self).session_id@,
                    old(self).sent as nat,
                ) && index == old(self).sent && sent_bytes@ == bytes@
            },
    {
        let planned = self.plan[self.sent];
        if bytes.len() != planned.length as usize {
            return self.fail(
                ErrorKind::LocalFileError,
                String::from_str("short read: a chunk returned fewer bytes than planned"),
            );
        }
        self.phase = Phase::AwaitingAck;
        let url = chunk_upload_url(
            self.access_token.as_str(),
            self.remote_path.as_str(),
            self.session_id.as_str(),
            self.sent as u64,
        );
        UploadAction::SendChunk { url, index: self.sent as u32, bytes }
    }

    /// Report how one chunk transmission ended.  Returns whether the
    /// acknowledgment drew the soft warning of a missing digest, and the
    /// next action.
    ///
    /// Transport failure and a non-success HTTP status end the upload at
    /// once: no later chunk is read or sent and the session is never
    /// committed.  An acknowledgment without a digest is fatal for a
    /// single-chunk upload and a soft warning for a multi-chunk one.  After
    /// the last acknowledged chunk the session-committing call goes out with
    /// the same path, size and digest list that opened the session.
    pub fn on_chunk_ack(&mut self, result: ExchangeResult<ChunkAck>) -> (r: (bool, UploadAction))
        requires
            old(self).wf(),
            old(self).phase is AwaitingAck,
        ensures
            final(self).wf(),
            Self::config_unchanged(*old(self), *final(self)),
            final(self).file_size == old(self).file_size,
            final(self).plan == old(self).plan,
            final(self).digests == old(self).digests,
            final(self).session_id == old(self).session_id,
            result is TransportFailed ==> final(self).failed_with(ErrorKind::TransportError)
                && !r.0,
            result is HttpFailed ==> final(self).failed_with(ErrorKind::ProtocolError) && !r.0,
            result is Undecodable ==> final(self).failed_with(ErrorKind::ProtocolError) && !r.0,
            final(self).phase is Finished ==> r.1 is Done && !is_network_action(r.1),
            result matches ExchangeResult::Reply(ack) ==> {
                &&& (ack_digest_missing(ack) && old(self).plan@.len() == 1 ==> final(self).failed_with(ErrorKind::ContractViolation) && !r.0)
                &&& ((!ack_digest_missing(ack) || old(self).plan@.len() > 1) ==> {
                    &&& r.0 == ack_digest_missing(ack)
                    &&& final(self).sent == old(self).sent + 1
                    &&& final(self).outcome is None
                })
                &&& ((!ack_digest_missing(ack) || old(self).plan@.len() > 1) && old(self).sent + 1
                    < old(self).plan@.len() ==> {
                    &&& final(self).phase is ReadingChunk
                    &&& r.1 matches UploadAction::ReadRange { offset, length } && offset == old(
                        self,
                    ).plan@[old(self).sent + 1].offset && length == old(self).plan@[old(
                        self,
                    ).sent + 1].length
                })
                &&& ((!ack_digest_missing(ack) || old(self).plan@.len() > 1) && old(self).sent + 1
                    == old(self).plan@.len() ==> {
                    &&& final(self).phase is Committing
                    &&& r.1 matches UploadAction::SendCreate(req) && req.path@ == old(
                        self,
                    ).remote_path@ && req.size == old(self).file_size && req.isdir == 0
                        && req.rtype == 3 && req.uploadid@ == old(self).session_id@
                        && req.block_list@ == json_string_array_of(string_views(old(self).digests@))
                })
            },
    {
        match result {
            ExchangeResult::TransportFailed(detail) => {
                let mut message = String::from_str("chunk transmission never completed: ");
                message.append(detail.as_str());
                (false, self.fail(ErrorKind::TransportError, message))
            },
            ExchangeResult::HttpFailed(status, body) => {
                let mut message = String::from_str("chunk transmission answered HTTP ");
                let code = u64_to_dec(status as u64);
                message.append(code.as_str());
                message.append(": ");
                message.append(body.as_str());
                (false, self.fail(ErrorKind::ProtocolError, message))
            },
            ExchangeResult::Undecodable(detail) => {
                let mut message = String::from_str("undecodable chunk acknowledgment: ");
                message.append(detail.as_str());
                (false, self.fail(ErrorKind::ProtocolError, message))
            },
            ExchangeResult::Reply(ack) => {
                let missing = match &ack.md5 {
                    None => true,
                    Some(s) => s.as_str().unicode_len() == 0,
                };
                if missing && self.plan.len() == 1 {
                    let act = self.fail(
                        ErrorKind::ContractViolation,
                        String::from_str("digest missing in whole-file acknowledgment"),
                    );
                    return (false, act);
                }
                self.sent = self.sent + 1;
                if self.sent < self.plan.len() {
                    self.phase = Phase::ReadingChunk;
                    let next = self.plan[self.sent];
                    (missing, UploadAction::ReadRange { offset: next.offset, length: next.length })
                } else {
                    self.phase = Phase::Committing;
                    let req = create_request(
                        self.remote_path.as_str(),
                        self.file_size,
                        self.session_id.as_str(),
                        &self.digests,
                    );
                    (missing, UploadAction::SendCreate(req))
                }
            },
        }
    }

    /// Report how the session-committing call ended.
    ///
    /// Transport failure, a non-success HTTP status, an undecodable body and
    /// a non-zero provider status each end the upload with their own kind.
    /// A zero provider status commits the session: the outcome is the
    /// descriptor of the remote file exactly as the reply carried it.
    pub fn on_create_result(&mut self, result: ExchangeResult<CreateReply>) -> (act: UploadAction)
        requires
            old(self).wf(),
            old(self).phase is Committing,
        ensures
            final(self).wf(),
            Self::config_unchanged(*old(self), *final(self)),
            final(self).phase is Finished,
            act is Done,
            !is_network_action(act),
            result is TransportFailed ==> final(self).failed_with(ErrorKind::TransportError),
            result is HttpFailed ==> final(self).failed_with(ErrorKind::ProtocolError),
            result is Undecodable ==> final(self).failed_with(ErrorKind::ProtocolError),
            result matches ExchangeResult::Reply(c) ==> {
                &&& c.errno != 0 ==> final(self).failed_with(ErrorKind::ProtocolError)
                &&& c.errno == 0 ==> {
                    &&& final(self).succeeded()
                    &&& final(self).outcome matches Some(UploadOutcome::Success(f)) && f.fs_id
                        == c.fs_id && f.md5@ == c.md5@ && f.path@ == c.path@ && f.size == c.size
                        && f.ctime == c.ctime && f.mtime == c.mtime
                }
            },
    {
        match result {
            ExchangeResult::TransportFailed(detail) => {
                let mut message = String::from_str("session commit never completed: ");
                message.append(detail.as_str());
                self.fail(ErrorKind::TransportError, message)
            },
            ExchangeResult::HttpFailed(status, body) => {
                let mut message = String::from_str("session commit answered HTTP ");
                let code = u64_to_dec(status as u64);
                message.append(code.as_str());
                message.append(": ");
                message.append(body.as_str());
                self.fail(ErrorKind::ProtocolError, message)
            },
            ExchangeResult::Undecodable(detail) => {
                let mut message = String::from_str("undecodable session commit reply: ");
                message.append(detail.as_str());
                self.fail(ErrorKind::ProtocolError, message)
            },
            ExchangeResult::Reply(reply) => {
                if reply.errno != 0 {
                    let mut message = String::from_str(
                        "session commit failed with provider status ",
                    );
                    let code = i64_to_dec(reply.errno);
                    message.append(code.as_str());
                    return self.fail(ErrorKind::ProtocolError, message);
                }
                self.phase = Phase::Finished;
                self.outcome = Some(
                    UploadOutcome::Success(
                        RemoteFileDescriptor {
                            fs_id: reply.fs_id,
                            md5: reply.md5,
                            path: reply.path,
                            size: reply.size,
                            ctime: reply.ctime,
                            mtime: reply.mtime,
                        },
                    ),
                );
                UploadAction::Done
            },
        }
    }
}

/// True when a chunk acknowledgment carries no digest, or an empty one.
pub open spec fn ack_digest_missing(ack: ChunkAck) -> bool {
    match ack.md5 {
        None => true,
        Some(s) => s@.len() == 0,
    }
}

/// The client configured for one account: it keeps the bearer token and
/// starts one state machine per upload request.
pub struct BaiduUploader {
    /// Bearer token attached to every outbound call.
    pub access_token: String,
}

impl BaiduUploader {
    /// Keep the token for the uploads to come.
    pub fn new(access_token: String) -> (u: Self)
        ensures
            u.access_token == access_token,
    {
        BaiduUploader { access_token }
    }

    /// Start the upload of `file_name` into `remote_dir` at the client's
    /// fixed chunk size.
    pub fn begin_upload(&self, remote_dir: &str, file_name: &str) -> (m: UploadMachine)
        ensures
            m.wf(),
            m.phase is Validating,
            m.access_token@ == self.access_token@,
            m.remote_path@ == resolved_path(remote_dir@, file_name@),
            m.chunk_size == CHUNK_SIZE,
            m.outcome is None,
    {
        UploadMachine::new(self.access_token.as_str(), remote_dir, file_name, CHUNK_SIZE)
    }
}

} // verus!
