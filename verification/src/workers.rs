//! Decisions of the load workers, the connection retries and the test run.
//!
//! Each worker alternates network work with decisions. The caller asks the
//! worker for its next action, performs it, and hands back what happened; the
//! worker answers with the bytes to add to the load counter.

use vstd::prelude::*;
use crate::requests::{HTTP_DATA_SIZE, UPLOAD_CHUNK_LEN};

verus! {

/// Size of the buffer the download workers read into.
pub const READ_BUFFER_LEN: u64 = 65536;

/// Size of one block that the HTTP upload writes.
pub const UPLOAD_BLOCK_LEN: u64 = 1024;

/// The next thing a worker does.
#[derive(PartialEq, Eq, Structural, Clone, Copy, Debug)]
pub enum WorkerAction {
    /// Send a request head.
    SendRequest,
    /// Read into the buffer.
    Read,
    /// Write this many bytes of payload.
    Write(u64),
    /// Stop working.
    Stop,
}

/// Where a request/response worker stands.
#[derive(PartialEq, Eq, Structural, Clone, Copy, Debug)]
pub enum Phase {
    /// A request head is due.
    Request,
    /// The request went out; its first reply bytes are due.
    FirstRead,
    /// Moving payload.
    Body,
    /// Done.
    Finished,
}

// ---------------------------------------------------------------------------
// HTTP download worker (used by the threaded and the asynchronous client).

/// The HTTP download worker: sends download requests one after the other and
/// reads each response until `HTTP_DATA_SIZE` bytes came or the phase ends.
#[derive(PartialEq, Eq, Structural, Clone, Copy, Debug)]
pub struct HttpDownload {
    /// Bytes read for the current request.
    pub received: u64,
    /// Where the worker stands.
    pub phase: Phase,
}

/// The HTTP download worker's next action.
pub open spec fn http_download_next(w: HttpDownload, ended: bool) -> (HttpDownload, WorkerAction) {
    match w.phase {
        Phase::Request => if ended {
            (HttpDownload { phase: Phase::Finished, ..w }, WorkerAction::Stop)
        } else {
            (w, WorkerAction::SendRequest)
        },
        Phase::FirstRead => (w, WorkerAction::Read),
        Phase::Body => if ended {
            (HttpDownload { phase: Phase::Finished, ..w }, WorkerAction::Stop)
        } else if w.received < HTTP_DATA_SIZE {
            (w, WorkerAction::Read)
        } else {
            (HttpDownload { phase: Phase::Request, ..w }, WorkerAction::SendRequest)
        },
        Phase::Finished => (w, WorkerAction::Stop),
    }
}

/// The HTTP download worker after a request head was written (or failed).
pub open spec fn http_download_sent(w: HttpDownload, ok: bool) -> HttpDownload {
    match w.phase {
        Phase::Request => if ok {
            HttpDownload { phase: Phase::FirstRead, ..w }
        } else {
            HttpDownload { phase: Phase::Finished, ..w }
        },
        _ => w,
    }
}

/// The HTTP download worker after a read returned `read` bytes (`None`: the
/// read failed), with the bytes to count.
pub open spec fn http_download_read(w: HttpDownload, read: Option<u64>) -> (HttpDownload, u64) {
    match w.phase {
        Phase::FirstRead => match read {
            Some(n) => if n > 0 {
                (HttpDownload { received: n, phase: Phase::Body }, n)
            } else {
                (HttpDownload { phase: Phase::Finished, ..w }, 0)
            },
            None => (HttpDownload { phase: Phase::Finished, ..w }, 0),
        },
        Phase::Body => match read {
            Some(n) => (HttpDownload { received: (w.received + n) as u64, ..w }, n),
            None => (HttpDownload { phase: Phase::Finished, ..w }, 0),
        },
        _ => (w, 0),
    }
}

impl HttpDownload {
    /// Takes in that the worker's connection could not be opened: the worker
    /// is finished, and it still passes the start barrier once (returns
    /// `true`) so that the other workers and the sampler start together.
    pub fn connection_failed(&mut self) -> (pass_barrier: bool)
        ensures
            *final(self) == (HttpDownload { phase: Phase::Finished, ..*old(self) }),
            pass_barrier,
    {
        self.phase = Phase::Finished;
        true
    }

    /// A worker about to send its first request.
    pub fn new() -> (w: Self)
        ensures
            w == (HttpDownload { received: 0, phase: Phase::Request }),
    {
        HttpDownload { received: 0, phase: Phase::Request }
    }

    /// Decides the next action; `ended` tells whether the phase has ended.
    pub fn next_action(&mut self, ended: bool) -> (a: WorkerAction)
        ensures
            (*final(self), a) == http_download_next(*old(self), ended),
    {
        match self.phase {
            Phase::Request => {
                if ended {
                    self.phase = Phase::Finished;
                    WorkerAction::Stop
                } else {
                    WorkerAction::SendRequest
                }
            },
            Phase::FirstRead => WorkerAction::Read,
            Phase::Body => {
                if ended {
                    self.phase = Phase::Finished;
                    WorkerAction::Stop
                } else if self.received < HTTP_DATA_SIZE {
                    WorkerAction::Read
                } else {
                    self.phase = Phase::Request;
                    WorkerAction::SendRequest
                }
            },
            Phase::Finished => WorkerAction::Stop,
        }
    }

    /// Takes in whether the request head was written.
    pub fn request_sent(&mut self, ok: bool)
        ensures
            *final(self) == http_download_sent(*old(self), ok),
    {
        if let Phase::Request = self.phase {
            self.phase = if ok { Phase::FirstRead } else { Phase::Finished };
        }
    }

    /// Takes in what a read returned (`None`: it failed) and returns the
    /// bytes to count.
    pub fn read_done(&mut self, read: Option<u64>) -> (counted: u64)
        requires
            match read {
                Some(n) => n <= READ_BUFFER_LEN,
                None => true,
            },
            old(self).phase == Phase::Body ==> old(self).received < HTTP_DATA_SIZE,
        ensures
            (*final(self), counted) == http_download_read(*old(self), read),
    {
        match self.phase {
            Phase::FirstRead => match read {
                Some(n) => {
                    if n > 0 {
                        self.received = n;
                        self.phase = Phase::Body;
                        n
                    } else {
                        self.phase = Phase::Finished;
                        0
                    }
                },
                None => {
                    self.phase = Phase::Finished;
                    0
                },
            },
            Phase::Body => match read {
                Some(n) => {
                    self.received = self.received + n;
                    n
                },
                None => {
                    self.phase = Phase::Finished;
                    0
                },
            },
            _ => 0,
        }
    }
}

// ---------------------------------------------------------------------------
// HTTP upload worker of the threaded client.

/// The threaded client's upload worker: one request head, then blocks of
/// `UPLOAD_BLOCK_LEN` bytes until `HTTP_DATA_SIZE` bytes went out or the
/// phase ends.
#[derive(PartialEq, Eq, Structural, Clone, Copy, Debug)]
pub struct HttpUpload {
    /// Payload bytes sent.
    pub sent: u64,
    /// Where the worker stands (`Request`, `Body` or `Finished`).
    pub phase: Phase,
}

/// The upload worker's invariant: whole blocks, never past the announced size.
pub open spec fn http_upload_wf(w: HttpUpload) -> bool {
    &&& w.sent % 1024 == 0
    &&& w.sent <= HTTP_DATA_SIZE
}

/// The upload worker's next action.
pub open spec fn http_upload_next(w: HttpUpload, ended: bool) -> (HttpUpload, WorkerAction) {
    match w.phase {
        Phase::Request => (w, WorkerAction::SendRequest),
        Phase::Body => if w.sent < HTTP_DATA_SIZE && !ended {
            (w, WorkerAction::Write(UPLOAD_BLOCK_LEN))
        } else {
            (HttpUpload { phase: Phase::Finished, ..w }, WorkerAction::Stop)
        },
        _ => (HttpUpload { phase: Phase::Finished, ..w }, WorkerAction::Stop),
    }
}

/// The upload worker after its request head was written (or failed).
pub open spec fn http_upload_sent(w: HttpUpload, ok: bool) -> HttpUpload {
    match w.phase {
        Phase::Request => if ok {
            HttpUpload { phase: Phase::Body, ..w }
        } else {
            HttpUpload { phase: Phase::Finished, ..w }
        },
        _ => w,
    }
}

/// The upload worker after a block write (`ok`: it succeeded), with the bytes
/// to count.
pub open spec fn http_upload_written(w: HttpUpload, ok: bool) -> (HttpUpload, u64) {
    match w.phase {
        Phase::Body => if ok {
            (HttpUpload { sent: (w.sent + UPLOAD_BLOCK_LEN) as u64, ..w }, UPLOAD_BLOCK_LEN)
        } else {
            (HttpUpload { phase: Phase::Finished, ..w }, 0)
        },
        _ => (w, 0),
    }
}

/// The upload worker after flushing (`ok`: it succeeded).
pub open spec fn http_upload_flushed(w: HttpUpload, ok: bool) -> HttpUpload {
    match w.phase {
        Phase::Body => if ok { w } else { HttpUpload { phase: Phase::Finished, ..w } },
        _ => w,
    }
}

impl HttpUpload {
    /// Takes in that the worker's connection could not be opened: the worker
    /// is finished, and it still passes the start barrier once (returns
    /// `true`) so that the other workers and the sampler start together.
    pub fn connection_failed(&mut self) -> (pass_barrier: bool)
        ensures
            *final(self) == (HttpUpload { phase: Phase::Finished, ..*old(self) }),
            pass_barrier,
    {
        self.phase = Phase::Finished;
        true
    }

    /// A worker about to send its request head.
    pub fn new() -> (w: Self)
        ensures
            w == (HttpUpload { sent: 0, phase: Phase::Request }),
            http_upload_wf(w),
    {
        HttpUpload { sent: 0, phase: Phase::Request }
    }

    /// Decides the next action; `ended` tells whether the phase has ended.
    pub fn next_action(&mut self, ended: bool) -> (a: WorkerAction)
        ensures
            (*final(self), a) == http_upload_next(*old(self), ended),
            http_upload_wf(*old(self)) ==> http_upload_wf(*final(self)),
    {
        match self.phase {
            Phase::Request => WorkerAction::SendRequest,
            Phase::Body => {
                if self.sent < HTTP_DATA_SIZE && !ended {
                    WorkerAction::Write(UPLOAD_BLOCK_LEN)
                } else {
                    self.phase = Phase::Finished;
                    WorkerAction::Stop
                }
            },
            _ => {
                self.phase = Phase::Finished;
                WorkerAction::Stop
            },
        }
    }

    /// Takes in whether the request head was written.
    pub fn request_sent(&mut self, ok: bool)
        ensures
            *final(self) == http_upload_sent(*old(self), ok),
            http_upload_wf(*old(self)) ==> http_upload_wf(*final(self)),
    {
        if let Phase::Request = self.phase {
            self.phase = if ok { Phase::Body } else { Phase::Finished };
        }
    }

    /// Takes in whether the block write succeeded and returns the bytes to
    /// count; called after a `Write` action.
    pub fn block_written(&mut self, ok: bool) -> (counted: u64)
        requires
            http_upload_wf(*old(self)),
            old(self).phase == Phase::Body ==> old(self).sent < HTTP_DATA_SIZE,
        ensures
            (*final(self), counted) == http_upload_written(*old(self), ok),
            http_upload_wf(*final(self)),
    {
        match self.phase {
            Phase::Body => {
                if ok {
                    self.sent = self.sent + UPLOAD_BLOCK_LEN;
                    UPLOAD_BLOCK_LEN
                } else {
                    self.phase = Phase::Finished;
                    0
                }
            },
            _ => 0,
        }
    }

    /// Takes in whether the flush after a block succeeded.
    pub fn flushed(&mut self, ok: bool)
        ensures
            *final(self) == http_upload_flushed(*old(self), ok),
            http_upload_wf(*old(self)) ==> http_upload_wf(*final(self)),
    {
        if let Phase::Body = self.phase {
            if !ok {
                self.phase = Phase::Finished;
            }
        }
    }
}

// ---------------------------------------------------------------------------
// HTTP upload worker of the asynchronous client.

/// The asynchronous client's upload worker: sends upload requests one after
/// the other; each carries chunks until `HTTP_DATA_SIZE` bytes (counting the
/// head) went out or the phase ends.
#[derive(PartialEq, Eq, Structural, Clone, Copy, Debug)]
pub struct ChunkedUpload {
    /// Bytes sent for the current request, head included.
    pub sent: u64,
    /// Where the worker stands (`Request`, `Body` or `Finished`).
    pub phase: Phase,
}

/// The chunked upload worker's next action.
pub open spec fn chunked_upload_next(w: ChunkedUpload, ended: bool) -> (ChunkedUpload, WorkerAction) {
    match w.phase {
        Phase::Request => if ended {
            (ChunkedUpload { phase: Phase::Finished, ..w }, WorkerAction::Stop)
        } else {
            (w, WorkerAction::SendRequest)
        },
        Phase::Body => if ended {
            (ChunkedUpload { phase: Phase::Finished, ..w }, WorkerAction::Stop)
        } else if w.sent < HTTP_DATA_SIZE {
            (w, WorkerAction::Write(UPLOAD_CHUNK_LEN as u64))
        } else {
            (ChunkedUpload { phase: Phase::Request, ..w }, WorkerAction::SendRequest)
        },
        _ => (ChunkedUpload { phase: Phase::Finished, ..w }, WorkerAction::Stop),
    }
}

/// The chunked upload worker after a request head of `head_len` bytes was
/// written (or failed), with the bytes to count.
pub open spec fn chunked_upload_sent(w: ChunkedUpload, ok: bool, head_len: u64) -> (ChunkedUpload, u64) {
    match w.phase {
        Phase::Request => if ok {
            (ChunkedUpload { sent: head_len, phase: Phase::Body }, head_len)
        } else {
            (ChunkedUpload { phase: Phase::Finished, ..w }, 0)
        },
        _ => (w, 0),
    }
}

/// The chunked upload worker after a write of `written` bytes (`None`: it
/// failed), with the bytes to count.
pub open spec fn chunked_upload_written(w: ChunkedUpload, written: Option<u64>) -> (ChunkedUpload, u64) {
    match w.phase {
        Phase::Body => match written {
            Some(n) => (ChunkedUpload { sent: (w.sent + n) as u64, ..w }, n),
            None => (ChunkedUpload { phase: Phase::Finished, ..w }, 0),
        },
        _ => (w, 0),
    }
}

impl ChunkedUpload {
    /// Takes in that the worker's connection could not be opened: the worker
    /// is finished, and it still passes the start barrier once (returns
    /// `true`) so that the other workers and the sampler start together.
    pub fn connection_failed(&mut self) -> (pass_barrier: bool)
        ensures
            *final(self) == (ChunkedUpload { phase: Phase::Finished, ..*old(self) }),
            pass_barrier,
    {
        self.phase = Phase::Finished;
        true
    }

    /// A worker about to send its first request.
    pub fn new() -> (w: Self)
        ensures
            w == (ChunkedUpload { sent: 0, phase: Phase::Request }),
    {
        ChunkedUpload { sent: 0, phase: Phase::Request }
    }

    /// Decides the next action; `ended` tells whether the phase has ended.
    pub fn next_action(&mut self, ended: bool) -> (a: WorkerAction)
        ensures
            (*final(self), a) == chunked_upload_next(*old(self), ended),
    {
        match self.phase {
            Phase::Request => {
                if ended {
                    self.phase = Phase::Finished;
                    WorkerAction::Stop
                } else {
                    WorkerAction::SendRequest
                }
            },
            Phase::Body => {
                if ended {
                    self.phase = Phase::Finished;
                    WorkerAction::Stop
                } else if self.sent < HTTP_DATA_SIZE {
                    WorkerAction::Write(UPLOAD_CHUNK_LEN as u64)
                } else {
                    self.phase = Phase::Request;
                    WorkerAction::SendRequest
                }
            },
            _ => {
                self.phase = Phase::Finished;
                WorkerAction::Stop
            },
        }
    }

    /// Takes in whether the request head of `head_len` bytes was written and
    /// returns the bytes to count.
    pub fn request_sent(&mut self, ok: bool, head_len: u64) -> (counted: u64)
        ensures
            (*final(self), counted) == chunked_upload_sent(*old(self), ok, head_len),
    {
        match self.phase {
            Phase::Request => {
                if ok {
                    self.sent = head_len;
                    self.phase = Phase::Body;
                    head_len
                } else {
                    self.phase = Phase::Finished;
                    0
                }
            },
            _ => 0,
        }
    }

    /// Takes in how many bytes a write took (`None`: it failed) and returns
    /// the bytes to count; called after a `Write` action.
    pub fn chunk_written(&mut self, written: Option<u64>) -> (counted: u64)
        requires
            match written {
                Some(n) => n <= UPLOAD_CHUNK_LEN,
                None => true,
            },
            old(self).phase == Phase::Body ==> old(self).sent < HTTP_DATA_SIZE,
        ensures
            (*final(self), counted) == chunked_upload_written(*old(self), written),
    {
        match self.phase {
            Phase::Body => match written {
                Some(n) => {
                    self.sent = self.sent + n;
                    n
                },
                None => {
                    self.phase = Phase::Finished;
                    0
                },
            },
            _ => 0,
        }
    }
}

// ---------------------------------------------------------------------------
// TCP speed-test workers.

/// The TCP download worker: one request line, a first reply that must not be
/// empty, then reads until the phase ends.
#[derive(PartialEq, Eq, Structural, Clone, Copy, Debug)]
pub struct TcpDownload {
    /// Where the worker stands.
    pub phase: Phase,
}

/// The TCP download worker's next action.
pub open spec fn tcp_download_next(w: TcpDownload, ended: bool) -> (TcpDownload, WorkerAction) {
    match w.phase {
        Phase::Request => (w, WorkerAction::SendRequest),
        Phase::FirstRead => (w, WorkerAction::Read),
        Phase::Body => if ended {
            (TcpDownload { phase: Phase::Finished }, WorkerAction::Stop)
        } else {
            (w, WorkerAction::Read)
        },
        Phase::Finished => (w, WorkerAction::Stop),
    }
}

/// The TCP download worker after its request line was written (or failed).
pub open spec fn tcp_download_sent(w: TcpDownload, ok: bool) -> TcpDownload {
    match w.phase {
        Phase::Request => TcpDownload { phase: if ok { Phase::FirstRead } else { Phase::Finished } },
        _ => w,
    }
}

/// The TCP download worker after a read returned `read` bytes (`None`: it
/// failed), with the bytes to count.
pub open spec fn tcp_download_read(w: TcpDownload, read: Option<u64>) -> (TcpDownload, u64) {
    match (w.phase, read) {
        (Phase::FirstRead, Some(n)) => if n > 0 {
            (TcpDownload { phase: Phase::Body }, n)
        } else {
            (TcpDownload { phase: Phase::Finished }, 0)
        },
        (Phase::FirstRead, None) => (TcpDownload { phase: Phase::Finished }, 0),
        (Phase::Body, Some(n)) => (w, n),
        (Phase::Body, None) => (TcpDownload { phase: Phase::Finished }, 0),
        _ => (w, 0),
    }
}

impl TcpDownload {
    /// Takes in that the worker's connection could not be opened: the worker
    /// is finished, and it still passes the start barrier once (returns
    /// `true`) so that the other workers and the sampler start together.
    pub fn connection_failed(&mut self) -> (pass_barrier: bool)
        ensures
            *final(self) == (TcpDownload { phase: Phase::Finished }),
            pass_barrier,
    {
        self.phase = Phase::Finished;
        true
    }

    /// A worker about to send its request line.
    pub fn new() -> (w: Self)
        ensures
            w == (TcpDownload { phase: Phase::Request }),
    {
        TcpDownload { phase: Phase::Request }
    }

    /// Decides the next action; `ended` tells whether the phase has ended.
    pub fn next_action(&mut self, ended: bool) -> (a: WorkerAction)
        ensures
            (*final(self), a) == tcp_download_next(*old(self), ended),
    {
        match self.phase {
            Phase::Request => WorkerAction::SendRequest,
            Phase::FirstRead => WorkerAction::Read,
            Phase::Body => {
                if ended {
                    self.phase = Phase::Finished;
                    WorkerAction::Stop
                } else {
                    WorkerAction::Read
                }
            },
            Phase::Finished => WorkerAction::Stop,
        }
    }

    /// Takes in whether the request line was written.
    pub fn request_sent(&mut self, ok: bool)
        ensures
            *final(self) == tcp_download_sent(*old(self), ok),
    {
        if let Phase::Request = self.phase {
            self.phase = if ok { Phase::FirstRead } else { Phase::Finished };
        }
    }

    /// Takes in what a read returned (`None`: it failed) and returns the
    /// bytes to count.
    pub fn read_done(&mut self, read: Option<u64>) -> (counted: u64)
        ensures
            (*final(self), counted) == tcp_download_read(*old(self), read),
    {
        match (self.phase, read) {
            (Phase::FirstRead, Some(n)) => {
                if n > 0 {
                    self.phase = Phase::Body;
                    n
                } else {
                    self.phase = Phase::Finished;
                    0
                }
            },
            (Phase::FirstRead, None) => {
                self.phase = Phase::Finished;
                0
            },
            (Phase::Body, Some(n)) => n,
            (Phase::Body, None) => {
                self.phase = Phase::Finished;
                0
            },
            _ => 0,
        }
    }
}

/// The TCP upload worker: one request line, then chunks until the phase ends.
#[derive(PartialEq, Eq, Structural, Clone, Copy, Debug)]
pub struct TcpUpload {
    /// Where the worker stands (`Request`, `Body` or `Finished`).
    pub phase: Phase,
}

/// The TCP upload worker's next action.
pub open spec fn tcp_upload_next(w: TcpUpload, ended: bool) -> (TcpUpload, WorkerAction) {
    match w.phase {
        Phase::Request => (w, WorkerAction::SendRequest),
        Phase::Body => if ended {
            (TcpUpload { phase: Phase::Finished }, WorkerAction::Stop)
        } else {
            (w, WorkerAction::Write(UPLOAD_CHUNK_LEN as u64))
        },
        _ => (TcpUpload { phase: Phase::Finished }, WorkerAction::Stop),
    }
}

/// The TCP upload worker after its request line of `len` bytes was written
/// (or failed), with the bytes to count.
pub open spec fn tcp_upload_sent(w: TcpUpload, ok: bool, len: u64) -> (TcpUpload, u64) {
    match w.phase {
        Phase::Request => if ok {
            (TcpUpload { phase: Phase::Body }, len)
        } else {
            (TcpUpload { phase: Phase::Finished }, 0)
        },
        _ => (w, 0),
    }
}

/// The TCP upload worker after a write of `written` bytes (`None`: it
/// failed), with the bytes to count.
pub open spec fn tcp_upload_written(w: TcpUpload, written: Option<u64>) -> (TcpUpload, u64) {
    match (w.phase, written) {
        (Phase::Body, Some(n)) => (w, n),
        (Phase::Body, None) => (TcpUpload { phase: Phase::Finished }, 0),
        _ => (w, 0),
    }
}

impl TcpUpload {
    /// Takes in that the worker's connection could not be opened: the worker
    /// is finished, and it still passes the start barrier once (returns
    /// `true`) so that the other workers and the sampler start together.
    pub fn connection_failed(&mut self) -> (pass_barrier: bool)
        ensures
            *final(self) == (TcpUpload { phase: Phase::Finished }),
            pass_barrier,
    {
        self.phase = Phase::Finished;
        true
    }

    /// A worker about to send its request line.
    pub fn new() -> (w: Self)
        ensures
            w == (TcpUpload { phase: Phase::Request }),
    {
        TcpUpload { phase: Phase::Request }
    }

    /// Decides the next action; `ended` tells whether the phase has ended.
    pub fn next_action(&mut self, ended: bool) -> (a: WorkerAction)
        ensures
            (*final(self), a) == tcp_upload_next(*old(self), ended),
    {
        match self.phase {
            Phase::Request => WorkerAction::SendRequest,
            Phase::Body => {
                if ended {
                    self.phase = Phase::Finished;
                    WorkerAction::Stop
                } else {
                    WorkerAction::Write(UPLOAD_CHUNK_LEN as u64)
                }
            },
            _ => {
                self.phase = Phase::Finished;
                WorkerAction::Stop
            },
        }
    }

    /// Takes in whether the request line of `len` bytes was written and
    /// returns the bytes to count.
    pub fn request_sent(&mut self, ok: bool, len: u64) -> (counted: u64)
        ensures
            (*final(self), counted) == tcp_upload_sent(*old(self), ok, len),
    {
        match self.phase {
            Phase::Request => {
                if ok {
                    self.phase = Phase::Body;
                    len
                } else {
                    self.phase = Phase::Finished;
                    0
                }
            },
            _ => 0,
        }
    }

    /// Takes in how many bytes a write took (`None`: it failed) and returns
    /// the bytes to count.
    pub fn chunk_written(&mut self, written: Option<u64>) -> (counted: u64)
        ensures
            (*final(self), counted) == tcp_upload_written(*old(self), written),
    {
        match (self.phase, written) {
            (Phase::Body, Some(n)) => n,
            (Phase::Body, None) => {
                self.phase = Phase::Finished;
                0
            },
            _ => 0,
        }
    }
}

// ---------------------------------------------------------------------------
// Connection attempts, the sampling window and the test run.

/// Connection attempts made before giving up.
pub const CONNECT_ATTEMPTS: u8 = 3;

/// The attempts left after one more failed.
pub open spec fn left_after_failure(left: u8) -> u8 {
    if left > 0 { (left - 1) as u8 } else { 0 }
}

/// A connection is tried at most `CONNECT_ATTEMPTS` times: the first two
/// failures lead to another attempt, the third gives up.
pub proof fn law_three_attempts()
    ensures
        left_after_failure(CONNECT_ATTEMPTS) > 0,
        left_after_failure(left_after_failure(CONNECT_ATTEMPTS)) > 0,
        left_after_failure(left_after_failure(left_after_failure(CONNECT_ATTEMPTS))) == 0,
{
}

/// The attempts left to open a connection.
#[derive(PartialEq, Eq, Structural, Clone, Copy, Debug)]
pub struct ConnectRetry {
    /// Attempts left, the current one included.
    pub left: u8,
}

impl ConnectRetry {
    /// Before the first attempt.
    pub fn new() -> (r: Self)
        ensures
            r.left == CONNECT_ATTEMPTS,
    {
        ConnectRetry { left: CONNECT_ATTEMPTS }
    }

    /// Takes in a failed attempt; `true` when another attempt follows (after
    /// a pause), `false` when the connection is given up.
    pub fn failed(&mut self) -> (again: bool)
        ensures
            final(self).left == left_after_failure(old(self).left),
            again == (final(self).left > 0),
    {
        if self.left > 0 {
            self.left = self.left - 1;
        }
        self.left > 0
    }
}

/// How long a load phase samples the counter, in microseconds.
pub const SAMPLING_WINDOW_MICROS: u128 = 14_000_000;

/// Whether the sampler takes another sample after `time_passed` microseconds.
pub fn keep_sampling(time_passed: u128) -> (b: bool)
    ensures
        b == (time_passed < SAMPLING_WINDOW_MICROS),
{
    time_passed < SAMPLING_WINDOW_MICROS
}

/// Where a speed test run stands.
#[derive(PartialEq, Eq, Structural, Clone, Copy, Debug)]
pub enum TestStage {
    /// The ping test is due.
    Ping,
    /// The upload test is due.
    Upload,
    /// The download test is due.
    Download,
    /// The run is over, with its outcome.
    Done(bool),
}

/// The stage after the current one reported `ok`.
pub open spec fn stage_after(s: TestStage, ok: bool) -> TestStage {
    match s {
        TestStage::Ping => if ok { TestStage::Upload } else { TestStage::Done(false) },
        TestStage::Upload => if ok { TestStage::Download } else { TestStage::Done(false) },
        TestStage::Download => TestStage::Done(ok),
        TestStage::Done(b) => TestStage::Done(b),
    }
}

impl TestStage {
    /// The first stage of a run.
    pub fn start() -> (s: Self)
        ensures
            s == TestStage::Ping,
    {
        TestStage::Ping
    }

    /// The stage that follows when the current one reported `ok`.
    pub fn advance(self, ok: bool) -> (s: Self)
        ensures
            s == stage_after(self, ok),
    {
        match self {
            TestStage::Ping => if ok { TestStage::Upload } else { TestStage::Done(false) },
            TestStage::Upload => if ok { TestStage::Download } else { TestStage::Done(false) },
            TestStage::Download => TestStage::Done(ok),
            TestStage::Done(b) => TestStage::Done(b),
        }
    }
}

/// A run succeeds exactly when ping, upload and download all succeed, and a
/// failed ping or upload ends it at once.
pub proof fn law_run_outcome(ping_ok: bool, upload_ok: bool, download_ok: bool)
    ensures
        stage_after(stage_after(stage_after(TestStage::Ping, ping_ok), upload_ok), download_ok)
            == TestStage::Done(ping_ok && upload_ok && download_ok),
        !ping_ok ==> stage_after(TestStage::Ping, ping_ok) == TestStage::Done(false),
        ping_ok && !upload_ok ==> stage_after(stage_after(TestStage::Ping, ping_ok), upload_ok)
            == TestStage::Done(false),
{
}

/// A finished worker stays finished and only ever stops.
pub proof fn law_finished_is_final(ended: bool, read: Option<u64>, ok: bool, n: u64, received: u64)
    ensures
        ({
            let w = HttpDownload { received, phase: Phase::Finished };
            http_download_next(w, ended) == (w, WorkerAction::Stop) && http_download_sent(w, ok) == w
                && http_download_read(w, read) == (w, 0u64)
        }),
        ({
            let w = HttpUpload { sent: received, phase: Phase::Finished };
            http_upload_next(w, ended) == (w, WorkerAction::Stop) && http_upload_sent(w, ok) == w
                && http_upload_written(w, ok) == (w, 0u64) && http_upload_flushed(w, ok) == w
        }),
        ({
            let w = ChunkedUpload { sent: received, phase: Phase::Finished };
            chunked_upload_next(w, ended) == (w, WorkerAction::Stop) && chunked_upload_sent(w, ok, n)
                == (w, 0u64) && chunked_upload_written(w, read) == (w, 0u64)
        }),
        ({
            let w = TcpDownload { phase: Phase::Finished };
            tcp_download_next(w, ended) == (w, WorkerAction::Stop) && tcp_download_sent(w, ok) == w
                && tcp_download_read(w, read) == (w, 0u64)
        }),
        ({
            let w = TcpUpload { phase: Phase::Finished };
            tcp_upload_next(w, ended) == (w, WorkerAction::Stop) && tcp_upload_sent(w, ok, n) == (
            w,
            0u64,
            ) && tcp_upload_written(w, read) == (w, 0u64)
        }),
{
}

/// The HTTP download worker asks for a new response only while the phase
/// runs, and reads for a response only until `HTTP_DATA_SIZE` bytes came.
pub proof fn law_download_bounds(w: HttpDownload, ended: bool)
    ensures
        http_download_next(w, ended).1 == WorkerAction::SendRequest ==> !ended,
        w.phase == Phase::Body && http_download_next(w, ended).1 == WorkerAction::Read
            ==> w.received < HTTP_DATA_SIZE,
{
}

/// The chunked upload worker starts requests only while the phase runs and
/// writes only while fewer than `HTTP_DATA_SIZE` bytes went out.
pub proof fn law_chunked_upload_bounds(w: ChunkedUpload, ended: bool)
    ensures
        chunked_upload_next(w, ended).1 == WorkerAction::SendRequest ==> !ended,
        chunked_upload_next(w, ended).1 is Write ==> w.sent < HTTP_DATA_SIZE && !ended,
{
}

/// The threaded upload never sends more payload than it announced: every
/// step keeps whole blocks within `HTTP_DATA_SIZE`.
pub proof fn law_upload_within_announced(w: HttpUpload, ended: bool, ok: bool)
    requires
        http_upload_wf(w),
    ensures
        http_upload_wf(http_upload_next(w, ended).0),
        http_upload_wf(http_upload_sent(w, ok)),
        http_upload_next(w, ended).1 is Write ==> http_upload_wf(
            http_upload_written(http_upload_next(w, ended).0, ok).0,
        ),
        http_upload_wf(http_upload_flushed(w, ok)),
        http_upload_next(w, ended).0.sent <= HTTP_DATA_SIZE,
{
}


/// Every worker counts exactly the bytes that moved: a read or write of `n`
/// bytes while a request is under way counts `n` (an empty first reply
/// counts nothing and finishes the worker), a written request head or line
/// counts its length where the worker counts heads, and a failure counts
/// nothing and finishes the worker.
pub proof fn law_counted_bytes(received: u64, sent: u64, n: u64, head_len: u64)
    ensures
        ({
            let w = HttpDownload { received, phase: Phase::FirstRead };
            &&& http_download_read(w, Some(n)) == if n > 0 {
                (HttpDownload { received: n, phase: Phase::Body }, n)
            } else {
                (HttpDownload { received, phase: Phase::Finished }, 0u64)
            }
            &&& http_download_read(w, None) == (HttpDownload { received, phase: Phase::Finished }, 0u64)
        }),
        ({
            let w = HttpDownload { received, phase: Phase::Body };
            &&& received + n <= u64::MAX ==> http_download_read(w, Some(n)) == (
            HttpDownload { received: (received + n) as u64, phase: Phase::Body },
            n,
            )
            &&& http_download_read(w, None) == (HttpDownload { received, phase: Phase::Finished }, 0u64)
        }),
        ({
            let w = HttpUpload { sent, phase: Phase::Body };
            &&& sent + 1024 <= u64::MAX ==> http_upload_written(w, true) == (
            HttpUpload { sent: (sent + 1024) as u64, phase: Phase::Body },
            1024u64,
            )
            &&& http_upload_written(w, false) == (HttpUpload { sent, phase: Phase::Finished }, 0u64)
        }),
        ({
            let w = ChunkedUpload { sent, phase: Phase::Request };
            &&& chunked_upload_sent(w, true, head_len) == (
            ChunkedUpload { sent: head_len, phase: Phase::Body },
            head_len,
            )
            &&& chunked_upload_sent(w, false, head_len) == (
            ChunkedUpload { sent, phase: Phase::Finished },
            0u64,
            )
        }),
        ({
            let w = ChunkedUpload { sent, phase: Phase::Body };
            &&& sent + n <= u64::MAX ==> chunked_upload_written(w, Some(n)) == (
            ChunkedUpload { sent: (sent + n) as u64, phase: Phase::Body },
            n,
            )
            &&& chunked_upload_written(w, None) == (ChunkedUpload { sent, phase: Phase::Finished }, 0u64)
        }),
        tcp_download_read(TcpDownload { phase: Phase::FirstRead }, Some(n)) == if n > 0 {
            (TcpDownload { phase: Phase::Body }, n)
        } else {
            (TcpDownload { phase: Phase::Finished }, 0u64)
        },
        tcp_download_read(TcpDownload { phase: Phase::Body }, Some(n)) == (
        TcpDownload { phase: Phase::Body },
        n,
        ),
        tcp_download_read(TcpDownload { phase: Phase::Body }, None) == (
        TcpDownload { phase: Phase::Finished },
        0u64,
        ),
        tcp_upload_sent(TcpUpload { phase: Phase::Request }, true, head_len) == (
        TcpUpload { phase: Phase::Body },
        head_len,
        ),
        tcp_upload_written(TcpUpload { phase: Phase::Body }, Some(n)) == (
        TcpUpload { phase: Phase::Body },
        n,
        ),
        tcp_upload_written(TcpUpload { phase: Phase::Body }, None) == (
        TcpUpload { phase: Phase::Finished },
        0u64,
        ),
{
}

/// While a phase runs, a download worker that has read `HTTP_DATA_SIZE`
/// bytes of a response starts the next request, and so does a chunked
/// upload that has sent that many; the threaded upload stops there. Once
/// the phase has ended, a worker between requests or moving payload stops.
pub proof fn law_worker_steps(received: u64, sent: u64)
    ensures
        received >= HTTP_DATA_SIZE ==> http_download_next(
            HttpDownload { received, phase: Phase::Body },
            false,
        ) == (HttpDownload { received, phase: Phase::Request }, WorkerAction::SendRequest),
        received < HTTP_DATA_SIZE ==> http_download_next(
            HttpDownload { received, phase: Phase::Body },
            false,
        ) == (HttpDownload { received, phase: Phase::Body }, WorkerAction::Read),
        http_download_next(HttpDownload { received, phase: Phase::Body }, true) == (
        HttpDownload { received, phase: Phase::Finished },
        WorkerAction::Stop,
        ),
        http_download_next(HttpDownload { received, phase: Phase::Request }, true) == (
        HttpDownload { received, phase: Phase::Finished },
        WorkerAction::Stop,
        ),
        sent >= HTTP_DATA_SIZE ==> chunked_upload_next(
            ChunkedUpload { sent, phase: Phase::Body },
            false,
        ) == (ChunkedUpload { sent, phase: Phase::Request }, WorkerAction::SendRequest),
        sent < HTTP_DATA_SIZE ==> chunked_upload_next(ChunkedUpload { sent, phase: Phase::Body }, false)
            == (ChunkedUpload { sent, phase: Phase::Body }, WorkerAction::Write(UPLOAD_CHUNK_LEN as u64)),
        chunked_upload_next(ChunkedUpload { sent, phase: Phase::Body }, true) == (
        ChunkedUpload { sent, phase: Phase::Finished },
        WorkerAction::Stop,
        ),
        sent < HTTP_DATA_SIZE ==> http_upload_next(HttpUpload { sent, phase: Phase::Body }, false) == (
        HttpUpload { sent, phase: Phase::Body },
        WorkerAction::Write(1024),
        ),
        sent >= HTTP_DATA_SIZE ==> http_upload_next(HttpUpload { sent, phase: Phase::Body }, false)
            == (HttpUpload { sent, phase: Phase::Finished }, WorkerAction::Stop),
        http_upload_next(HttpUpload { sent, phase: Phase::Body }, true) == (
        HttpUpload { sent, phase: Phase::Finished },
        WorkerAction::Stop,
        ),
        tcp_download_next(TcpDownload { phase: Phase::Body }, false) == (
        TcpDownload { phase: Phase::Body },
        WorkerAction::Read,
        ),
        tcp_download_next(TcpDownload { phase: Phase::Body }, true) == (
        TcpDownload { phase: Phase::Finished },
        WorkerAction::Stop,
        ),
        tcp_upload_next(TcpUpload { phase: Phase::Body }, false) == (
        TcpUpload { phase: Phase::Body },
        WorkerAction::Write(UPLOAD_CHUNK_LEN as u64),
        ),
        tcp_upload_next(TcpUpload { phase: Phase::Body }, true) == (
        TcpUpload { phase: Phase::Finished },
        WorkerAction::Stop,
        ),
{
}
} // verus!
