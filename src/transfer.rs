use vstd::prelude::*;
use crate::error::Error;
use std::path::PathBuf;

verus! {

/// Relies on std's `PathBuf` only as an opaque value: the destination is
/// moved through the session and handed back, never inspected.
#[verifier::external_type_specification]
#[verifier::external_body]
pub struct ExPathBuf(PathBuf);

/// Largest number of body bytes read, and held, at one time.
pub const CHUNK_SIZE: usize = 8192;

/// Where a session stands.
#[derive(Debug, Clone, Copy, PartialEq, Eq, Structural)]
pub enum Phase {
    /// Waiting for the server's answer to the GET request.
    Requesting,
    /// Waiting for the destination file to be created or truncated.
    Creating,
    /// Waiting for the next chunk of the response body.
    Reading,
    /// Waiting for the last chunk to be written to the file.
    Writing,
    /// The whole body is in the file.
    Done,
    /// A step failed; the session is over.
    Failed,
}

/// What the caller saw after carrying out the last action.
#[derive(Debug, Clone)]
pub enum Event {
    /// The server answered, declaring this body length, if any.
    Responded(Option<u64>),
    /// The request could not be made or was refused.
    RequestFailed(String),
    /// The destination file now exists and is empty.
    Created,
    /// The destination file could not be created.
    CreateFailed(String),
    /// One read of the body gave these bytes; none means the body is over.
    Received(Vec<u8>),
    /// Reading the body failed.
    ReceiveFailed(String),
    /// The bytes of the last `Write` are all in the file.
    Written,
    /// Writing to the file failed.
    WriteFailed(String),
}

/// What the caller must do next.
#[derive(Debug, Clone)]
pub enum Action {
    /// Create the destination file, truncating it if it exists.
    Create,
    /// Read at most `CHUNK_SIZE` bytes of the response body.
    Read,
    /// Append all of these bytes to the file.
    Write(Vec<u8>),
    /// Stop: the download succeeded; `finish` gives the destination back.
    Finish,
    /// Stop: the download failed with this error.
    Abort(Error),
}

/// Everything about a download that changes from step to step.
#[derive(Clone, Copy)]
struct Progress {
    phase: Phase,
    declared: Option<u64>,
    transferred: u64,
    body: Ghost<Seq<u8>>,
    file: Ghost<Seq<u8>>,
    pending: Ghost<Seq<u8>>,
}

/// The progress of one download, from the request to the last write.
pub struct Session {
    destination: PathBuf,
    state: Progress,
}

/// A byte count as a `u64` progress value: exact up to `u64::MAX`, then held there.
pub open spec fn progress_of(n: nat) -> u64 {
    if n <= u64::MAX {
        n as u64
    } else {
        u64::MAX
    }
}

impl Session {
    /// Where the session stands.
    pub closed spec fn phase_spec(&self) -> Phase {
        self.state.phase
    }

    /// The path the session was made with.
    pub closed spec fn destination_spec(&self) -> PathBuf {
        self.destination
    }

    /// The body length that the server declared, if it did.
    pub closed spec fn declared_spec(&self) -> Option<u64> {
        self.state.declared
    }

    /// Bytes of the body received so far, as reported for progress.
    pub closed spec fn transferred_spec(&self) -> u64 {
        self.state.transferred
    }

    /// Every byte of the response body received so far, in order.
    pub closed spec fn body(&self) -> Seq<u8> {
        self.state.body@
    }

    /// What this session has put in the destination file.
    pub closed spec fn file(&self) -> Seq<u8> {
        self.state.file@
    }

    /// The bytes handed out by the last `Write` and not yet confirmed.
    pub closed spec fn pending(&self) -> Seq<u8> {
        self.state.pending@
    }

    /// The state invariant: the file always holds a prefix of the body, and
    /// all of it whenever no write is outstanding.
    pub closed spec fn wf(&self) -> bool {
        let st = self.state;
        &&& st.transferred == progress_of(st.body@.len())
        &&& match st.phase {
            Phase::Requesting | Phase::Creating => st.body@.len() == 0 && st.file@.len() == 0,
            Phase::Reading | Phase::Done => st.file@ == st.body@,
            Phase::Writing => st.file@ + st.pending@ == st.body@ && st.pending@.len() > 0,
            Phase::Failed => true,
        }
    }

    /// Every session, as seen between calls, is well formed.
    #[verifier::type_invariant]
    spec fn inv(&self) -> bool {
        self.wf()
    }

    /// Whether `event` answers the action that the session asked for last.
    pub open spec fn accepts_spec(&self, event: Event) -> bool {
        match self.phase_spec() {
            Phase::Requesting => event is Responded || event is RequestFailed,
            Phase::Creating => event is Created || event is CreateFailed,
            Phase::Reading => match event {
                Event::Received(bytes) => bytes@.len() <= CHUNK_SIZE,
                Event::ReceiveFailed(_) => true,
                _ => false,
            },
            Phase::Writing => event is Written || event is WriteFailed,
            Phase::Done | Phase::Failed => false,
        }
    }

    /// A session for a download into `destination`; its first action is the request.
    pub fn new(destination: PathBuf) -> (s: Session)
        ensures
            s.wf(),
            s.phase_spec() == Phase::Requesting,
            s.destination_spec() == destination,
            s.declared_spec() is None,
            s.transferred_spec() == 0,
            s.body() == Seq::<u8>::empty(),
            s.file() == Seq::<u8>::empty(),
    {
        Session {
            destination,
            state: Progress {
                phase: Phase::Requesting,
                declared: None,
                transferred: 0,
                body: Ghost(Seq::empty()),
                file: Ghost(Seq::empty()),
                pending: Ghost(Seq::empty()),
            },
        }
    }

    /// Where the session stands.
    pub fn phase(&self) -> (r: Phase)
        ensures
            r == self.phase_spec(),
    {
        self.state.phase
    }

    /// The path the session was made with, where the file is created.
    pub fn destination(&self) -> (r: &PathBuf)
        ensures
            *r == self.destination_spec(),
    {
        &self.destination
    }

    /// The declared body length, or 0 where the server declared none.
    pub fn total(&self) -> (r: u64)
        ensures
            r == match self.declared_spec() {
                Some(n) => n,
                None => 0,
            },
    {
        match self.state.declared {
            Some(n) => n,
            None => 0,
        }
    }

    /// Bytes of the body received so far.
    pub fn transferred(&self) -> (r: u64)
        ensures
            r == self.transferred_spec(),
            r == progress_of(self.body().len()),
    {
        proof {
            use_type_invariant(self);
        }
        self.state.transferred
    }

    /// Whether `event` answers the action that the session asked for last.
    pub fn accepts(&self, event: &Event) -> (r: bool)
        ensures
            r == self.accepts_spec(*event),
    {
        match self.state.phase {
            Phase::Requesting => match event {
                Event::Responded(_) | Event::RequestFailed(_) => true,
                _ => false,
            },
            Phase::Creating => match event {
                Event::Created | Event::CreateFailed(_) => true,
                _ => false,
            },
            Phase::Reading => match event {
                Event::Received(bytes) => bytes.len() <= CHUNK_SIZE,
                Event::ReceiveFailed(_) => true,
                _ => false,
            },
            Phase::Writing => match event {
                Event::Written | Event::WriteFailed(_) => true,
                _ => false,
            },
            Phase::Done | Phase::Failed => false,
        }
    }
    /// Takes the outcome of the last action and decides the next one. The
    /// first failure ends the session with its error: a failed request or
    /// read is a network error, a failed create or write an I/O error.
    pub fn step(&mut self, event: Event) -> (action: Action)
        requires
            old(self).accepts_spec(event),
        ensures
            final(self).wf(),
            final(self).destination_spec() == old(self).destination_spec(),
            final(self).transferred_spec() >= old(self).transferred_spec(),
            final(self).phase_spec() is Failed ==> final(self).file() == old(self).file(),
            match event {
                Event::Responded(len) => {
                    &&& action is Create
                    &&& final(self).phase_spec() == Phase::Creating
                    &&& final(self).declared_spec() == len
                    &&& final(self).body() == old(self).body()
                },
                Event::RequestFailed(cause) => {
                    &&& action == Action::Abort(Error::Net(cause))
                    &&& final(self).phase_spec() == Phase::Failed
                    &&& final(self).file() == Seq::<u8>::empty()
                },
                Event::Created => {
                    &&& action is Read
                    &&& final(self).phase_spec() == Phase::Reading
                    &&& final(self).declared_spec() == old(self).declared_spec()
                    &&& final(self).file() == Seq::<u8>::empty()
                },
                Event::CreateFailed(cause) => {
                    &&& action == Action::Abort(Error::Io(cause))
                    &&& final(self).phase_spec() == Phase::Failed
                },
                Event::Received(bytes) => {
                    &&& final(self).declared_spec() == old(self).declared_spec()
                    &&& final(self).body() == old(self).body() + bytes@
                    &&& if bytes@.len() == 0 {
                        &&& action is Finish
                        &&& final(self).phase_spec() == Phase::Done
                        &&& final(self).file() == old(self).file()
                    } else {
                        &&& action == Action::Write(bytes)
                        &&& final(self).phase_spec() == Phase::Writing
                        &&& final(self).file() == old(self).file()
                        &&& final(self).pending() == bytes@
                    }
                },
                Event::ReceiveFailed(cause) => {
                    &&& action == Action::Abort(Error::Net(cause))
                    &&& final(self).phase_spec() == Phase::Failed
                },
                Event::Written => {
                    &&& action is Read
                    &&& final(self).phase_spec() == Phase::Reading
                    &&& final(self).declared_spec() == old(self).declared_spec()
                    &&& final(self).body() == old(self).body()
                    &&& final(self).file() == old(self).file() + old(self).pending()
                },
                Event::WriteFailed(cause) => {
                    &&& action == Action::Abort(Error::Io(cause))
                    &&& final(self).phase_spec() == Phase::Failed
                },
            },
    {
        proof {
            use_type_invariant(&*self);
        }
        let mut st = self.state;
        let action = match event {
            Event::Responded(len) => {
                st.declared = len;
                st.phase = Phase::Creating;
                Action::Create
            },
            Event::RequestFailed(cause) => {
                st.phase = Phase::Failed;
                Action::Abort(Error::Net(cause))
            },
            Event::Created => {
                st.file = Ghost(Seq::empty());
                assert(st.body@ =~= st.file@);
                st.phase = Phase::Reading;
                Action::Read
            },
            Event::CreateFailed(cause) => {
                st.phase = Phase::Failed;
                Action::Abort(Error::Io(cause))
            },
            Event::Received(bytes) => {
                let n = bytes.len();
                st.body = Ghost(st.body@ + bytes@);
                st.transferred = st.transferred.saturating_add(n as u64);
                if n == 0 {
                    assert(st.body@ == old(self).state.body@);
                    st.phase = Phase::Done;
                    Action::Finish
                } else {
                    st.pending = Ghost(bytes@);
                    st.phase = Phase::Writing;
                    Action::Write(bytes)
                }
            },
            Event::ReceiveFailed(cause) => {
                st.phase = Phase::Failed;
                Action::Abort(Error::Net(cause))
            },
            Event::Written => {
                st.file = Ghost(st.file@ + st.pending@);
                st.pending = Ghost(Seq::empty());
                st.phase = Phase::Reading;
                Action::Read
            },
            Event::WriteFailed(cause) => {
                st.phase = Phase::Failed;
                Action::Abort(Error::Io(cause))
            },
        };
        self.state = st;
        action
    }

    /// Ends a successful session, giving back the destination it was made with.
    pub fn finish(self) -> (r: PathBuf)
        requires
            self.phase_spec() == Phase::Done,
        ensures
            r == self.destination_spec(),
    {
        self.destination
    }
}

/// A finished download left the file holding exactly the response body:
/// every byte the server sent, in order, with nothing dropped or repeated.
pub proof fn lemma_finished_file_is_body(s: Session)
    requires
        s.wf(),
        s.phase_spec() == Phase::Done,
    ensures
        s.file() == s.body(),
{
}

/// A finished download wrote exactly as many bytes as the body holds,
/// whatever that length is relative to `CHUNK_SIZE`.
pub proof fn lemma_finished_length_is_body_length(s: Session)
    requires
        s.wf(),
        s.phase_spec() == Phase::Done,
    ensures
        s.file().len() == s.body().len(),
{
}

/// At completion the progress value counts the whole body, and so equals
/// the declared length where the server sent as many bytes as it declared.
pub proof fn lemma_finished_progress_is_total(s: Session)
    requires
        s.wf(),
        s.phase_spec() == Phase::Done,
        s.body().len() <= u64::MAX,
    ensures
        s.transferred_spec() == s.body().len(),
        s.declared_spec() is Some && s.body().len() == s.declared_spec()->0
            ==> s.transferred_spec() == s.declared_spec()->0,
{
}

} // verus!
