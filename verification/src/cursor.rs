//! The stream of documents that one query yields.
//!
//! The server answers in batches. A cursor hands out the documents of a
//! batch one at a time and asks for the next batch only when the last one
//! is used up. It never reads the wire itself: it says what it needs, and
//! takes what arrived from its session's inbox.

use vstd::prelude::*;
use vstd::slice::slice_to_vec;
use crate::cmd::close::Arg;
use crate::cmd::run::Options;
use crate::datum::{json_seq, json_text, Datum, Json};
use crate::err::{Driver, ErrorKind, Fault, ReqlError};
use crate::frame::frame_bytes;
use crate::payload::{frames, payload, payload_json, stop_json, unframed};
use crate::proto::{QueryType, ResponseType};
use crate::query::{term_json, Query};
use crate::response::Response;
use crate::session::{Connection, Inbound, Session, SessionView};

verus! {

/// What kind of stream a cursor reads.
#[derive(Debug, Clone, Copy, PartialEq, Eq, Structural)]
pub enum Mode {
    /// A single value.
    Atom,
    /// A sequence that ends.
    Sequence,
    /// A change feed, which ends only when it is closed.
    ChangeFeed,
}

/// How far the server is with a cursor's query.
#[derive(Debug, Clone, Copy, PartialEq, Eq, Structural)]
pub enum State {
    /// More batches may come.
    Open,
    /// The server sent its last batch. What is buffered is still handed
    /// out.
    Exhausted,
    /// The stream ended in an error.
    Errored,
}

/// What a cursor has for its reader.
#[derive(Debug, PartialEq, Eq)]
pub enum Next {
    /// The next document.
    Item(Datum),
    /// The batch is used up and the server has more: send this `CONTINUE`
    /// frame, then wait.
    Continue(Vec<u8>),
    /// Nothing yet: an answer is awaited.
    Wait,
    /// The error that ended the stream.
    Failed(ReqlError),
    /// The stream is over.
    Done,
}

/// The stream of documents that one query yields.
#[derive(Debug)]
pub struct Cursor {
    conn: Connection,
    resume: Vec<u8>,
    buffer: Vec<Datum>,
    mode: Mode,
    state: State,
    pending: bool,
    first: bool,
    error: Option<ReqlError>,
}

/// The mathematical value of a [`Cursor`].
pub ghost struct CursorView {
    /// The token of the cursor's query.
    pub token: u64,
    /// The frame that asks for the next batch.
    pub resume: Seq<u8>,
    /// The documents of the current batch that were not handed out yet.
    pub buffer: Seq<Json>,
    /// What kind of stream this is.
    pub mode: Mode,
    /// How far the server is.
    pub state: State,
    /// Whether a request is out whose answer was not taken in yet.
    pub pending: bool,
    /// Whether no answer was taken in yet.
    pub first: bool,
    /// The error that ended the stream and was not handed out yet.
    pub error: Option<Fault>,
}

/// The view of an error that may be absent.
pub open spec fn opt_fault(e: Option<ReqlError>) -> Option<Fault> {
    match e {
        Some(e) => Some(e@),
        None => None,
    }
}

impl View for Cursor {
    type V = CursorView;

    closed spec fn view(&self) -> CursorView {
        CursorView {
            token: self.conn.token(),
            resume: self.resume@,
            buffer: json_seq(self.buffer@),
            mode: self.mode,
            state: self.state,
            pending: self.pending,
            first: self.first,
            error: opt_fault(self.error),
        }
    }
}

/// The document that asks for the next batch: `[2]`.
pub open spec fn continue_json() -> Json {
    payload_json(QueryType::Continue, None, None)
}

/// The document that starts `query` with `options` in a session whose
/// database is `db`: `[1, term, options]`.
pub open spec fn start_json(
    query: crate::query::Term,
    options: crate::cmd::run::OptionsView,
    db: Seq<char>,
) -> Json {
    payload_json(QueryType::Start, Some(term_json(query)), Some(options.json(db)))
}

/// Whether a response announces a change feed: it is the first, it is no
/// error, and it carries a note.
pub open spec fn announces_feed(c: CursorView, r: Response) -> bool {
    c.pending && c.first && !r.kind.spec_is_error() && r.notes@.len() > 0
}

/// The fault of a response that claims a single value and brings none or
/// several.
pub open spec fn not_single() -> Fault {
    Fault::new(ErrorKind::Json, "response does not hold exactly one value"@)
}

impl CursorView {
    /// A cursor on `token` whose `START` was just sent. Where the server
    /// was told not to answer, the stream is over at once.
    pub open spec fn started(token: u64, resume: Seq<u8>, noreply: bool) -> CursorView {
        CursorView {
            token,
            resume,
            buffer: Seq::empty(),
            mode: Mode::Sequence,
            state: if noreply {
                State::Exhausted
            } else {
                State::Open
            },
            pending: !noreply,
            first: true,
            error: None,
        }
    }

    /// The cursor after it took in what arrived for its query.
    ///
    /// An error ends the stream. A response fills the buffer with its
    /// results; it ends the stream unless it is partial. A response to a
    /// cursor that awaits none changes nothing.
    pub open spec fn accepted(self, inbound: Inbound) -> CursorView {
        if !self.pending {
            self
        } else {
            let taken = CursorView { pending: false, first: false, ..self };
            match inbound {
                Err(e) => CursorView { state: State::Errored, error: Some(e@), ..taken },
                Ok(r) => {
                    let results = json_seq(r.results@);
                    let feed = announces_feed(self, r);
                    match r.kind {
                        ResponseType::SuccessAtom | ResponseType::ServerInfo => if results.len()
                            == 1 {
                            CursorView {
                                buffer: results,
                                state: State::Exhausted,
                                mode: if feed {
                                    Mode::ChangeFeed
                                } else {
                                    Mode::Atom
                                },
                                ..taken
                            }
                        } else {
                            CursorView {
                                state: State::Errored,
                                error: Some(not_single()),
                                ..taken
                            }
                        },
                        ResponseType::SuccessSequence => CursorView {
                            buffer: results,
                            state: State::Exhausted,
                            mode: if feed {
                                Mode::ChangeFeed
                            } else {
                                self.mode
                            },
                            ..taken
                        },
                        ResponseType::SuccessPartial => CursorView {
                            buffer: results,
                            mode: if feed {
                                Mode::ChangeFeed
                            } else {
                                self.mode
                            },
                            ..taken
                        },
                        ResponseType::WaitComplete => CursorView {
                            state: State::Exhausted,
                            ..taken
                        },
                        _ => CursorView { state: State::Errored, error: r.fault(), ..taken },
                    }
                },
            }
        }
    }

    /// What the cursor has for its reader.
    pub open spec fn has(self) -> NextKind {
        if self.buffer.len() > 0 {
            NextKind::Item
        } else if self.state is Exhausted {
            NextKind::Done
        } else if self.state is Errored {
            if self.error is Some {
                NextKind::Failed
            } else {
                NextKind::Done
            }
        } else if self.pending {
            NextKind::Wait
        } else {
            NextKind::Continue
        }
    }

    /// The cursor after it gave its reader what it has.
    pub open spec fn stepped(self) -> CursorView {
        match self.has() {
            NextKind::Item => CursorView { buffer: self.buffer.drop_first(), ..self },
            NextKind::Failed => CursorView { error: None, ..self },
            NextKind::Continue => CursorView { pending: true, ..self },
            _ => self,
        }
    }
}

/// The kind of a [`Next`], without what it carries.
#[derive(Debug, Clone, Copy, PartialEq, Eq, Structural)]
pub enum NextKind {
    Item,
    Continue,
    Wait,
    Failed,
    Done,
}

impl Cursor {
    /// A cursor for the query on `conn`, whose `START` was just sent.
    /// `resume` is the frame that asks for the next batch; `noreply` says
    /// that the server was told not to answer.
    pub fn new(conn: Connection, resume: Vec<u8>, noreply: bool) -> (c: Cursor)
        ensures
            c@ == CursorView::started(conn.token(), resume@, noreply),
    {
        let c = Cursor {
            conn,
            resume,
            buffer: Vec::new(),
            mode: Mode::Sequence,
            state: if noreply {
                State::Exhausted
            } else {
                State::Open
            },
            pending: !noreply,
            first: true,
            error: None,
        };
        proof {
            assert(c@.buffer =~= Seq::<Json>::empty());
        }
        c
    }

    /// The token of the cursor's query.
    pub fn token(&self) -> (t: u64)
        ensures
            t == self@.token,
    {
        self.conn.token()
    }

    /// What kind of stream this is.
    pub fn mode(&self) -> (m: Mode)
        ensures
            m == self@.mode,
    {
        self.mode
    }

    /// How far the server is.
    pub fn state(&self) -> (s: State)
        ensures
            s == self@.state,
    {
        self.state
    }

    /// Whether an answer is awaited.
    pub fn is_pending(&self) -> (b: bool)
        ensures
            b == self@.pending,
    {
        self.pending
    }

    /// Gives the reader what the cursor has: the next document of the
    /// batch; or, when the batch is used up, the request for the next one,
    /// once; or the end of the stream.
    ///
    /// `CONTINUE` is asked for only with an empty buffer, on an open stream
    /// and while no answer is awaited; from then on an answer is awaited.
    pub fn next(&mut self) -> (r: Next)
        ensures
            final(self)@ == old(self)@.stepped(),
            match r {
                Next::Item(d) => old(self)@.has() is Item && d@ == old(self)@.buffer[0],
                Next::Continue(frame) => old(self)@.has() is Continue && frame@ == old(
                    self,
                )@.resume,
                Next::Wait => old(self)@.has() is Wait,
                Next::Failed(e) => old(self)@.has() is Failed && Some(e@) == old(self)@.error,
                Next::Done => old(self)@.has() is Done,
            },
    {
        if self.buffer.len() > 0 {
            let d = self.buffer.remove(0);
            proof {
                assert(json_seq(self.buffer@) =~= json_seq(old(self).buffer@).drop_first());
            }
            return Next::Item(d);
        }
        proof {
            assert(json_seq(self.buffer@).len() == 0);
        }
        match self.state {
            State::Exhausted => Next::Done,
            State::Errored => match self.error.take() {
                Some(e) => Next::Failed(e),
                None => Next::Done,
            },
            State::Open => if self.pending {
                Next::Wait
            } else {
                self.pending = true;
                Next::Continue(slice_to_vec(self.resume.as_slice()))
            },
        }
    }

    /// Takes in what arrived for the cursor's query.
    ///
    /// The cursor changes as [`CursorView::accepted`] says. Where the
    /// response announces a change feed, the session records that this
    /// query holds it.
    pub fn accept(&mut self, session: &mut Session, inbound: Inbound)
        ensures
            final(self)@ == old(self)@.accepted(inbound),
            final(session)@ == (if inbound matches Ok(r) && announces_feed(old(self)@, r) {
                SessionView { feed: Some(old(self)@.token), ..old(session)@ }
            } else {
                old(session)@
            }),
            old(session).wf() ==> final(session).wf(),
    {
        if !self.pending {
            return ;
        }
        self.pending = false;
        let was_first = self.first;
        self.first = false;
        let response = match inbound {
            Err(e) => {
                self.state = State::Errored;
                self.error = Some(e);
                return ;
            },
            Ok(response) => response,
        };
        let feed = was_first && !response.kind.is_error() && response.is_feed();
        if feed {
            session.mark_change_feed(self.conn.token());
        }
        match response.kind {
            ResponseType::SuccessAtom | ResponseType::ServerInfo => {
                if response.results.len() == 1 {
                    self.buffer = response.results;
                    self.state = State::Exhausted;
                    self.mode = if feed {
                        Mode::ChangeFeed
                    } else {
                        Mode::Atom
                    };
                } else {
                    self.state = State::Errored;
                    self.error = Some(
                        ReqlError::Driver(
                            Driver::Json("response does not hold exactly one value".to_owned()),
                        ),
                    );
                }
            },
            ResponseType::SuccessSequence => {
                self.buffer = response.results;
                self.state = State::Exhausted;
                if feed {
                    self.mode = Mode::ChangeFeed;
                }
            },
            ResponseType::SuccessPartial => {
                self.buffer = response.results;
                if feed {
                    self.mode = Mode::ChangeFeed;
                }
            },
            ResponseType::WaitComplete => {
                self.state = State::Exhausted;
            },
            _ => {
                self.state = State::Errored;
                self.error = response.error();
            },
        }
    }

    /// Takes in the oldest message that arrived for the cursor's query, if
    /// the cursor awaits one and one arrived. Says whether it did.
    pub fn poll(&mut self, session: &mut Session) -> (taken: bool)
        requires
            old(session).wf(),
        ensures
            final(session).wf(),
            taken == (old(self)@.pending && old(session)@.oldest(old(self)@.token) is Some),
            !taken ==> final(self)@ == old(self)@ && final(session)@ == old(session)@,
            taken ==> ({
                let inbound = old(session)@.oldest(old(self)@.token)->0;
                let read = old(session)@.read(old(self)@.token);
                &&& final(self)@ == old(self)@.accepted(inbound)
                &&& final(session)@ == (if inbound matches Ok(r) && announces_feed(old(self)@, r) {
                    SessionView { feed: Some(old(self)@.token), ..read }
                } else {
                    read
                })
            }),
    {
        if !self.pending {
            return false;
        }
        match session.receive(self.conn.token()) {
            Some(inbound) => {
                self.accept(session, inbound);
                true
            },
            None => false,
        }
    }

    /// Closes the change feed that this cursor reads, as
    /// [`Connection::close`] does.
    pub fn close<T: Arg>(&self, session: &mut Session, arg: T) -> (r: Result<
        Option<Vec<u8>>,
        ReqlError,
    >)
        ensures
            match r {
                Ok(None) => {
                    &&& old(session)@.feed != Some(self@.token)
                    &&& final(session)@ == old(session)@
                },
                Ok(Some(frame)) => {
                    &&& old(session)@.feed == Some(self@.token)
                    &&& frames(stop_json(arg.waits()))
                    &&& frame@ == frame_bytes(self@.token, json_text(stop_json(arg.waits())))
                    &&& final(session)@ == (SessionView { feed: None, ..old(session)@ })
                },
                Err(e) => {
                    &&& old(session)@.feed == Some(self@.token)
                    &&& final(session)@ == old(session)@
                    &&& unframed(stop_json(arg.waits()), e@)
                },
            },
    {
        self.conn.close(session, arg)
    }

    /// Gives the cursor up: its token leaves the session's routing table,
    /// and a change feed that it held is closed.
    pub fn release(self, session: &mut Session)
        requires
            old(session).wf(),
        ensures
            final(session).wf(),
            final(session)@ == old(session)@.released(self@.token),
    {
        session.release(self.conn);
    }
}

impl Session {
    /// Starts a query: leases a token, and gives the cursor that reads the
    /// answers and the `START` frame to send.
    ///
    /// A session that refuses leases refuses this. One that grants them
    /// succeeds exactly where both the `START` document and the `CONTINUE`
    /// document can be sent in a frame; nothing is leased where one cannot.
    /// The options are sent with the session's database where they name
    /// none.
    pub fn run(&mut self, query: &Query, options: &Options) -> (r: Result<
        (Cursor, Vec<u8>),
        ReqlError,
    >)
        requires
            old(self).wf(),
        ensures
            final(self).wf(),
            old(self)@.refusal() is Some ==> r is Err,
            match r {
                Ok((cursor, frame)) => {
                    let token = old(self)@.next_token;
                    &&& old(self)@.refusal() is None
                    &&& !old(self)@.inboxes.dom().contains(token)
                    &&& final(self)@ == old(self)@.leased()
                    &&& frames(start_json(query@, options@, old(self)@.db))
                    &&& frames(continue_json())
                    &&& frame@ == frame_bytes(
                        token,
                        json_text(start_json(query@, options@, old(self)@.db)),
                    )
                    &&& cursor@ == CursorView::started(
                        token,
                        frame_bytes(token, json_text(continue_json())),
                        options@.noreply == Some(true),
                    )
                },
                Err(e) => {
                    &&& final(self)@ == old(self)@
                    &&& match old(self)@.refusal() {
                        Some(refused) => e@ == Fault::bare(refused),
                        None => unframed(start_json(query@, options@, old(self)@.db), e@)
                            || unframed(continue_json(), e@),
                    }
                },
            },
    {
        match self.broken() {
            Err(e) => {
                return Err(e);
            },
            Ok(()) => {},
        }
        match self.change_feed() {
            Err(e) => {
                return Err(e);
            },
            Ok(()) => {},
        }
        let start = payload(
            QueryType::Start,
            Some(query.to_datum()),
            Some(options.to_datum(self.db())),
        );
        let start_text = match start.to_bytes() {
            Ok(text) => text,
            Err(e) => {
                return Err(e);
            },
        };
        let resume_text = match payload(QueryType::Continue, None, None).to_bytes() {
            Ok(text) => text,
            Err(e) => {
                return Err(e);
            },
        };
        if resume_text.len() > u32::MAX as usize {
            return Err(
                ReqlError::Driver(Driver::Other("payload too large for a frame".to_owned())),
            );
        }
        let (conn, frame) = match self.request(start_text.as_slice()) {
            Ok(leased) => leased,
            Err(e) => {
                return Err(e);
            },
        };
        match crate::frame::encode_frame(conn.token(), resume_text.as_slice()) {
            Ok(resume) => Ok((Cursor::new(conn, resume, options.is_noreply()), frame)),
            Err(e) => {
                self.release(conn);
                Err(e)
            },
        }
    }
}

/// Reads the answer to a `NOREPLY_WAIT`: it must be a response that says
/// the wait is complete.
///
/// An error that arrived is handed on; a response that reports an error
/// gives that error; any other response is refused as unexpected.
pub fn wait_complete(inbound: Inbound) -> (r: Result<(), ReqlError>)
    ensures
        match inbound {
            Err(e) => r == Err::<(), ReqlError>(e),
            Ok(response) => match r {
                Ok(_) => response.kind is WaitComplete,
                Err(e) => match response.fault() {
                    Some(fault) => e@ == fault,
                    None => !(response.kind is WaitComplete) && e@ == Fault::new(
                        ErrorKind::Other,
                        "unexpected response"@,
                    ),
                },
            },
        },
{
    match inbound {
        Err(e) => Err(e),
        Ok(response) => match response.error() {
            Some(e) => Err(e),
            None => match response.kind {
                ResponseType::WaitComplete => Ok(()),
                _ => Err(ReqlError::Driver(Driver::Other("unexpected response".to_owned()))),
            },
        },
    }
}

} // verus!
