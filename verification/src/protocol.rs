//! The download as a state machine. The engine never touches the network
//! or the disk: it issues an `Action`, whoever drives it performs the
//! action and hands back the `Event` that answers it.

use crate::error::{classify, Error, ErrorKind};
use crate::hash::sha256;
use crate::path::joined;
use crate::response::{advertised_length, is_success, Response};
use std::path::PathBuf;
use vstd::prelude::*;

verus! {

/// The most bytes asked of the stream in one read.
pub const CHUNK_SIZE: usize = 8192;

/// Where a session stands.
#[derive(Clone, Copy, PartialEq, Eq, Structural, Debug)]
pub enum Phase {
    /// No stream has been acquired.
    Unfetched,
    /// A stream has been acquired and not yet drained.
    Fetched,
    /// A download has asked for the stream.
    Fetching,
    /// A download has asked whether a file stands at the destination.
    ProbingFile,
    /// A download has asked whether the destination directory is there.
    ProbingDirectory,
    /// The stream is taken; the destination file is being created.
    Creating,
    /// The next chunk has been asked of the stream.
    Reading,
    /// A chunk has been handed out to be written.
    Writing,
    /// The stream ended and every chunk is written.
    Completed,
    /// The transfer broke off.
    Failed,
}

/// What the driver reports back.
#[derive(Debug)]
pub enum Event {
    /// The outcome of the request: the response, or the transport's
    /// description of why there is none.
    Fetched(Result<Response, String>),
    /// Whether a regular file stands at the path asked about.
    IsFile(bool),
    /// Whether a directory stands at the path asked about.
    IsDirectory(bool),
    /// The destination file is created and open for writing.
    Created,
    /// The bytes of one read; none at the end of the stream.
    Chunk(Vec<u8>),
    /// The chunk handed out is written in full.
    Written,
    /// Creating the file, reading the stream or writing a chunk failed.
    Failed(std::io::Error),
}

/// What the engine asks of the driver.
#[derive(Debug)]
pub enum Action {
    /// Send a GET request to this URL.
    Fetch(String),
    /// Tell whether a regular file stands at this path.
    ProbeFile(PathBuf),
    /// Tell whether a directory stands at this path.
    ProbeDirectory(PathBuf),
    /// Create the file at this path and open it for writing.
    Create(PathBuf),
    /// Read at most this many bytes from the stream.
    Read(usize),
    /// Write all of `bytes` to the file; once they are written, report
    /// `progress`, the count of bytes transferred so far, to the observer.
    Write { bytes: Vec<u8>, progress: Option<u64> },
    /// The download is done, with the digest of the file if one was asked.
    Complete(Option<Vec<u8>>),
    /// The download has failed.
    Fail(Error),
}

/// An action as a value of the model.
pub enum ActionView {
    Fetch(Seq<char>),
    ProbeFile(PathBuf),
    ProbeDirectory(PathBuf),
    Create(PathBuf),
    Read(usize),
    Write { bytes: Seq<u8>, progress: Option<u64> },
    Complete(Option<Seq<u8>>),
    Fail(ErrorKind),
}

impl View for Action {
    type V = ActionView;

    open spec fn view(&self) -> ActionView {
        match *self {
            Action::Fetch(url) => ActionView::Fetch(url@),
            Action::ProbeFile(path) => ActionView::ProbeFile(path),
            Action::ProbeDirectory(path) => ActionView::ProbeDirectory(path),
            Action::Create(path) => ActionView::Create(path),
            Action::Read(limit) => ActionView::Read(limit),
            Action::Write { bytes, progress } => ActionView::Write { bytes: bytes@, progress },
            Action::Complete(digest) => ActionView::Complete(
                match digest {
                    Some(bytes) => Some(bytes@),
                    None => None,
                },
            ),
            Action::Fail(error) => ActionView::Fail(error@),
        }
    }
}

/// A session as the contracts see it.
pub struct State {
    pub phase: Phase,
    pub url: Seq<char>,
    pub directory: PathBuf,
    pub filename: Seq<char>,
    /// The length that the response advertised; never relied on.
    pub length: Option<u64>,
    /// Whether the download under way computes a digest.
    pub hashing: bool,
    /// Whether the download under way reports progress.
    pub reporting: bool,
    /// Every byte handed out for writing by the download under way.
    pub transferred: Seq<u8>,
}

/// The file that a download writes: the directory joined with the name.
pub open spec fn destination(s: State) -> PathBuf {
    joined(s.directory, s.filename)
}

/// A session is idle while no download has taken its stream: only then
/// can a download begin.
pub open spec fn idle(s: State) -> bool {
    s.phase is Unfetched || s.phase is Fetched
}

/// The state in which a download begins.
pub open spec fn begin(s: State, hashing: bool, reporting: bool) -> State {
    State {
        phase: if s.phase is Unfetched {
            Phase::Fetching
        } else {
            Phase::ProbingFile
        },
        hashing,
        reporting,
        transferred: Seq::empty(),
        ..s
    }
}

/// The first thing a download asks for: the stream if there is none yet,
/// else the probe of the destination.
pub open spec fn opening(s: State) -> ActionView {
    if s.phase is Unfetched {
        ActionView::Fetch(s.url)
    } else {
        ActionView::ProbeFile(destination(s))
    }
}

/// Whether `event` answers what the session last asked for. A chunk is
/// never longer than what was asked, and the count of bytes transferred
/// stays within 64 bits.
pub open spec fn awaits(s: State, event: Event) -> bool {
    match event {
        Event::Fetched(_) => s.phase is Fetching,
        Event::IsFile(_) => s.phase is ProbingFile,
        Event::IsDirectory(_) => s.phase is ProbingDirectory,
        Event::Created => s.phase is Creating,
        Event::Chunk(bytes) => {
            &&& s.phase is Reading
            &&& bytes@.len() <= CHUNK_SIZE
            &&& s.transferred.len() + bytes@.len() <= u64::MAX
        },
        Event::Written => s.phase is Writing,
        Event::Failed(_) => s.phase is Creating || s.phase is Reading || s.phase is Writing,
    }
}

/// Whether the outcome of a request hands over a stream: a response whose
/// status is a success.
pub open spec fn acquired(outcome: Result<Response, String>) -> bool {
    outcome matches Ok(response) && is_success(response.status)
}

/// The session once a request made ahead of the download has acquired the
/// stream: it holds the stream and the length that the response
/// advertised.
pub open spec fn prefetched(s: State, response: Response) -> State {
    State { phase: Phase::Fetched, length: advertised_length(response.content_length), ..s }
}

/// The state that follows an awaited event.
pub open spec fn next(s: State, event: Event) -> State {
    match event {
        Event::Fetched(outcome) => {
            if acquired(outcome) {
                State {
                    phase: Phase::ProbingFile,
                    length: advertised_length(outcome->Ok_0.content_length),
                    ..s
                }
            } else {
                State { phase: Phase::Unfetched, ..s }
            }
        },
        Event::IsFile(present) => {
            if present {
                State { phase: Phase::Fetched, ..s }
            } else {
                State { phase: Phase::ProbingDirectory, ..s }
            }
        },
        Event::IsDirectory(present) => {
            if present {
                State { phase: Phase::Creating, ..s }
            } else {
                State { phase: Phase::Fetched, ..s }
            }
        },
        Event::Created => State { phase: Phase::Reading, ..s },
        Event::Chunk(bytes) => {
            if bytes@.len() == 0 {
                State { phase: Phase::Completed, ..s }
            } else {
                State { phase: Phase::Writing, transferred: s.transferred + bytes@, ..s }
            }
        },
        Event::Written => State { phase: Phase::Reading, ..s },
        Event::Failed(_) => State { phase: Phase::Failed, ..s },
    }
}

/// What the session asks for, or ends with, upon an awaited event.
pub open spec fn respond(s: State, event: Event) -> ActionView {
    match event {
        Event::Fetched(outcome) => {
            if acquired(outcome) {
                ActionView::ProbeFile(destination(s))
            } else {
                ActionView::Fail(ErrorKind::InvalidResponse)
            }
        },
        Event::IsFile(present) => {
            if present {
                ActionView::Fail(ErrorKind::FileExists)
            } else {
                ActionView::ProbeDirectory(s.directory)
            }
        },
        Event::IsDirectory(present) => {
            if present {
                ActionView::Create(destination(s))
            } else {
                ActionView::Fail(ErrorKind::DirectoryMissing)
            }
        },
        Event::Created => ActionView::Read(CHUNK_SIZE),
        Event::Chunk(bytes) => {
            if bytes@.len() == 0 {
                ActionView::Complete(
                    if s.hashing {
                        Some(sha256(s.transferred))
                    } else {
                        None
                    },
                )
            } else {
                ActionView::Write {
                    bytes: bytes@,
                    progress: if s.reporting {
                        Some((s.transferred.len() + bytes@.len()) as u64)
                    } else {
                        None
                    },
                }
            }
        },
        Event::Written => ActionView::Read(CHUNK_SIZE),
        Event::Failed(err) => ActionView::Fail(classify(err)),
    }
}

} // verus!
