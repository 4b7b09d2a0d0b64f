//! The download session: one URL, one destination, at most one transfer.

use crate::error::{Error, ErrorKind};
use crate::hash::{absorbed, Hasher};
use crate::path::{join, owned, to_owned_path};
use crate::protocol::{
    acquired, awaits, begin, idle, next, opening, prefetched, respond, Action, Event, Phase,
    State, CHUNK_SIZE,
};
use crate::response::Response;
use std::path::{Path, PathBuf};
use vstd::prelude::*;

verus! {

/// Streams the contents of a download to the disk.
///
/// A session does no I/O of its own. `download` and
/// `download_and_return_sha256sum` begin a transfer and return the first
/// `Action`; the driver performs each action and hands the `Event` that
/// answers it to `advance`, until the action is `Complete` or `Fail`.
pub struct AsyncDownload {
    url: String,
    dst_path: PathBuf,
    fname: String,
    length: Option<u64>,
    phase: Phase,
    hashing: bool,
    reporting: bool,
    hasher: Option<Hasher>,
    count: u64,
    transferred: Ghost<Seq<u8>>,
}

impl View for AsyncDownload {
    type V = State;

    closed spec fn view(&self) -> State {
        State {
            phase: self.phase,
            url: self.url@,
            directory: self.dst_path,
            filename: self.fname@,
            length: self.length,
            hashing: self.hashing,
            reporting: self.reporting,
            transferred: self.transferred@,
        }
    }
}

/// The phases in which a download is under way.
spec fn under_way(phase: Phase) -> bool {
    !(phase is Unfetched || phase is Fetched || phase is Completed || phase is Failed)
}

impl AsyncDownload {
    /// The count kept is the count of bytes transferred, and while a
    /// hashing download is under way its digest has been fed exactly
    /// those bytes.
    pub closed spec fn wf(&self) -> bool {
        &&& self.count == self.transferred@.len()
        &&& self.hashing && under_way(self.phase) ==> (self.hasher matches Some(h) && absorbed(h)
            == self.transferred@)
    }

    /// A session for the URL, the destination directory and the name of
    /// the file to write there.
    pub fn new(url: &str, dst_path: &Path, fname: &str) -> (session: Self)
        ensures
            session.wf(),
            session@ == (State {
                phase: Phase::Unfetched,
                url: url@,
                directory: owned(dst_path),
                filename: fname@,
                length: None,
                hashing: false,
                reporting: false,
                transferred: Seq::empty(),
            }),
    {
        AsyncDownload {
            url: url.to_owned(),
            dst_path: to_owned_path(dst_path),
            fname: fname.to_owned(),
            length: None,
            phase: Phase::Unfetched,
            hashing: false,
            reporting: false,
            hasher: None,
            count: 0,
            transferred: Ghost(Seq::empty()),
        }
    }

    /// The length of the download in bytes, as the response advertised
    /// it. Known at the earliest once the stream is acquired.
    pub fn length(&self) -> (length: Option<u64>)
        ensures
            length == self@.length,
    {
        self.length
    }

    /// Where the session stands.
    pub fn phase(&self) -> (phase: Phase)
        ensures
            phase == self@.phase,
    {
        self.phase
    }

    /// The URL to fetch.
    pub fn url(&self) -> (url: &str)
        ensures
            url@ == self@.url,
    {
        self.url.as_str()
    }

    /// Takes in the outcome of a request made ahead of the download. A
    /// response with a success status acquires the stream and records the
    /// length it advertises; anything else fails with the transport's
    /// description, and the session is gone.
    pub fn get(self, outcome: Result<Response, String>) -> (result: Result<AsyncDownload, Error>)
        requires
            self.wf(),
            idle(self@),
        ensures
            match outcome {
                Ok(response) => if acquired(outcome) {
                    &&& result matches Ok(session)
                    &&& session.wf()
                    &&& session@ == prefetched(self@, response)
                } else {
                    result matches Err(error) && error@ == ErrorKind::Other(response.reason)
                },
                Err(detail) => result matches Err(error) && error@ == ErrorKind::Other(detail),
            },
    {
        let mut session = self;
        match outcome {
            Ok(response) => {
                if response.is_success() {
                    session.length = response.length();
                    session.phase = Phase::Fetched;
                    Ok(session)
                } else {
                    Err(Error::new(ErrorKind::Other(response.reason)))
                }
            },
            Err(detail) => Err(Error::new(ErrorKind::Other(detail))),
        }
    }

    /// Begins a download, with or without a digest.
    fn start(&mut self, hasher: Option<Hasher>, reporting: bool) -> (action: Action)
        requires
            old(self).wf(),
            idle(old(self)@),
            hasher matches Some(h) ==> absorbed(h) == Seq::<u8>::empty(),
        ensures
            final(self).wf(),
            final(self)@ == begin(old(self)@, hasher is Some, reporting),
            action@ == opening(old(self)@),
    {
        self.hashing = hasher.is_some();
        self.hasher = hasher;
        self.reporting = reporting;
        self.count = 0;
        self.transferred = Ghost(Seq::empty());
        match self.phase {
            Phase::Unfetched => {
                self.phase = Phase::Fetching;
                Action::Fetch(self.url.clone())
            },
            _ => {
                self.phase = Phase::ProbingFile;
                Action::ProbeFile(join(&self.dst_path, self.fname.as_str()))
            },
        }
    }

    /// Begins the download and returns the first action to perform.
    /// With `report` set, each `Write` carries the count of bytes
    /// transferred for the observer.
    pub fn download(&mut self, report: bool) -> (action: Action)
        requires
            old(self).wf(),
            idle(old(self)@),
        ensures
            final(self).wf(),
            final(self)@ == begin(old(self)@, false, report),
            action@ == opening(old(self)@),
    {
        self.start(None, report)
    }

    /// Begins the download as `download` does; the `Complete` that ends
    /// it carries the SHA-256 digest of the bytes written.
    pub fn download_and_return_sha256sum(&mut self, report: bool) -> (action: Action)
        requires
            old(self).wf(),
            idle(old(self)@),
        ensures
            final(self).wf(),
            final(self)@ == begin(old(self)@, true, report),
            action@ == opening(old(self)@),
    {
        self.start(Some(Hasher::new()), report)
    }

    /// Whether `event` answers what the session last asked for.
    pub fn expects(&self, event: &Event) -> (yes: bool)
        requires
            self.wf(),
        ensures
            yes == awaits(self@, *event),
    {
        match event {
            Event::Fetched(_) => self.phase == Phase::Fetching,
            Event::IsFile(_) => self.phase == Phase::ProbingFile,
            Event::IsDirectory(_) => self.phase == Phase::ProbingDirectory,
            Event::Created => self.phase == Phase::Creating,
            Event::Chunk(bytes) => {
                self.phase == Phase::Reading && bytes.len() <= CHUNK_SIZE && bytes.len() as u64
                    <= u64::MAX - self.count
            },
            Event::Written => self.phase == Phase::Writing,
            Event::Failed(_) => {
                self.phase == Phase::Creating || self.phase == Phase::Reading || self.phase
                    == Phase::Writing
            },
        }
    }

    /// Takes in the event that answers the last action and returns the
    /// next one.
    pub fn advance(&mut self, event: Event) -> (action: Action)
        requires
            old(self).wf(),
            awaits(old(self)@, event),
        ensures
            final(self).wf(),
            final(self)@ == next(old(self)@, event),
            action@ == respond(old(self)@, event),
    {
        match event {
            Event::Fetched(outcome) => {
                match outcome {
                    Ok(response) => {
                        if response.is_success() {
                            self.length = response.length();
                            self.phase = Phase::ProbingFile;
                            Action::ProbeFile(join(&self.dst_path, self.fname.as_str()))
                        } else {
                            self.phase = Phase::Unfetched;
                            Action::Fail(Error::new(ErrorKind::InvalidResponse))
                        }
                    },
                    Err(_) => {
                        self.phase = Phase::Unfetched;
                        Action::Fail(Error::new(ErrorKind::InvalidResponse))
                    },
                }
            },
            Event::IsFile(present) => {
                if present {
                    self.phase = Phase::Fetched;
                    Action::Fail(Error::new(ErrorKind::FileExists))
                } else {
                    self.phase = Phase::ProbingDirectory;
                    Action::ProbeDirectory(self.dst_path.clone())
                }
            },
            Event::IsDirectory(present) => {
                if present {
                    self.phase = Phase::Creating;
                    Action::Create(join(&self.dst_path, self.fname.as_str()))
                } else {
                    self.phase = Phase::Fetched;
                    Action::Fail(Error::new(ErrorKind::DirectoryMissing))
                }
            },
            Event::Created => {
                self.phase = Phase::Reading;
                Action::Read(CHUNK_SIZE)
            },
            Event::Chunk(bytes) => {
                if bytes.len() == 0 {
                    self.phase = Phase::Completed;
                    if self.hashing {
                        match self.hasher.take() {
                            Some(hasher) => Action::Complete(Some(hasher.finalize())),
                            None => Action::Complete(None),
                        }
                    } else {
                        Action::Complete(None)
                    }
                } else {
                    match self.hasher.take() {
                        Some(hasher) => {
                            let mut hasher = hasher;
                            hasher.update(bytes.as_slice());
                            self.hasher = Some(hasher);
                        },
                        None => {},
                    }
                    self.count = self.count + bytes.len() as u64;
                    self.transferred = Ghost(self.transferred@ + bytes@);
                    self.phase = Phase::Writing;
                    let progress = if self.reporting {
                        Some(self.count)
                    } else {
                        None
                    };
                    Action::Write { bytes, progress }
                }
            },
            Event::Written => {
                self.phase = Phase::Reading;
                Action::Read(CHUNK_SIZE)
            },
            Event::Failed(err) => {
                self.phase = Phase::Failed;
                Action::Fail(Error::from(err))
            },
        }
    }
}

} // verus!
