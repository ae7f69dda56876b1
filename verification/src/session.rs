//! One connection to the server, shared by many queries: the tokens it
//! leases, the inbox it keeps for each of them, and the switches that close
//! it to new queries.

use vstd::prelude::*;
use dashmap::DashMap;
use crate::cmd::close::Arg;
use crate::datum::{json_parsed, json_text};
use crate::err::{Driver, ErrorKind, Fault, ReqlError};
use crate::frame::{encode_frame, frame_bytes, too_large, Frame};
use crate::payload::{frames, payload, payload_json, stop_json, stop_payload, unframed};
use crate::proto::QueryType;
use crate::response::{is_response, reads_as, Response};

verus! {

/// `dashmap::DashMap`: the concurrent map that holds the routing table.
/// What it holds is named by [`routes`].
#[verifier::external_type_specification]
#[verifier::external_body]
#[verifier::reject_recursive_types(K)]
#[verifier::reject_recursive_types(V)]
#[verifier::reject_recursive_types(S)]
pub struct ExDashMap<K, V, S>(dashmap::DashMap<K, V, S>);

/// What arrives for a query: a response, or the error that ended its
/// stream.
pub type Inbound = Result<Response, ReqlError>;

/// The messages that arrived for one token and were not read yet, oldest
/// first.
pub type Inbox = Vec<Inbound>;

/// What a routing table holds: for each token in it, the messages of its
/// inbox, oldest first.
pub uninterp spec fn routes(table: DashMap<u64, Inbox>) -> Map<u64, Seq<Inbound>>;

/// `DashMap::new`: a table that holds nothing.
#[verifier::external_body]
fn table_new() -> (made: DashMap<u64, Inbox>)
    ensures
        routes(made).dom() == Set::<u64>::empty(),
{
    DashMap::new()
}

/// `DashMap::insert`: afterwards the table holds `inbox` under `token` and
/// is otherwise as before; the inbox that stood there before is returned.
#[verifier::external_body]
fn table_insert(table: &mut DashMap<u64, Inbox>, token: u64, inbox: Inbox) -> (before: Option<
    Inbox,
>)
    ensures
        routes(*final(table)) == routes(*old(table)).insert(token, inbox@),
        match before {
            Some(b) => routes(*old(table)).dom().contains(token) && routes(*old(table))[token]
                == b@,
            None => !routes(*old(table)).dom().contains(token),
        },
{
    table.insert(token, inbox)
}

/// `DashMap::remove`: afterwards the table holds nothing under `token` and
/// is otherwise as before; the inbox that stood there is returned.
#[verifier::external_body]
fn table_remove(table: &mut DashMap<u64, Inbox>, token: u64) -> (taken: Option<Inbox>)
    ensures
        routes(*final(table)) == routes(*old(table)).remove(token),
        match taken {
            Some(b) => routes(*old(table)).dom().contains(token) && routes(*old(table))[token]
                == b@,
            None => !routes(*old(table)).dom().contains(token),
        },
{
    table.remove(&token).map(|entry| entry.1)
}

/// `DashMap::contains_key`.
#[verifier::external_body]
fn table_contains(table: &DashMap<u64, Inbox>, token: u64) -> (b: bool)
    ensures
        b == routes(*table).dom().contains(token),
{
    table.contains_key(&token)
}

/// `DashMap::iter`, each entry mapped to its key: every token of the table
/// once, in no order that could be named.
#[verifier::external_body]
fn table_tokens(table: &DashMap<u64, Inbox>) -> (tokens: Vec<u64>)
    ensures
        tokens@.no_duplicates(),
        forall|t: u64| tokens@.contains(t) <==> routes(*table).dom().contains(t),
{
    table.iter().map(|entry| *entry.key()).collect()
}

/// A lease on one token of a session: the handle of one query.
///
/// It is handed out by [`Session::connection`] and handed back with
/// [`Session::release`].
#[derive(Debug, PartialEq, Eq)]
pub struct Connection {
    token: u64,
}

impl Connection {
    pub(crate) fn new(token: u64) -> (c: Connection)
        ensures
            c.token() == token,
    {
        Connection { token }
    }

    /// The token of this lease.
    pub closed spec fn spec_token(&self) -> u64 {
        self.token
    }

    /// The token of this lease.
    #[verifier::when_used_as_spec(spec_token)]
    pub fn token(&self) -> (t: u64)
        ensures
            t == self.spec_token(),
    {
        self.token
    }

    /// The frame that asks for the next batch of this connection's query:
    /// `CONTINUE`. There is one exactly where the document can be sent in a
    /// frame.
    pub fn continue_(&self) -> (r: Result<Vec<u8>, ReqlError>)
        ensures
            match r {
                Ok(frame) => {
                    &&& frames(payload_json(QueryType::Continue, None, None))
                    &&& frame@ == frame_bytes(
                        self.token(),
                        json_text(payload_json(QueryType::Continue, None, None)),
                    )
                },
                Err(e) => unframed(payload_json(QueryType::Continue, None, None), e@),
            },
    {
        crate::payload::frame_for(self.token, &payload(QueryType::Continue, None, None))
    }

    /// The frame that stops this connection's query: `STOP`, with the wish
    /// for an answer once earlier writes are through if `wait` says so.
    /// There is one exactly where the document can be sent in a frame.
    pub fn stop(&self, wait: bool) -> (r: Result<Vec<u8>, ReqlError>)
        ensures
            match r {
                Ok(frame) => frames(stop_json(wait)) && frame@ == frame_bytes(
                    self.token(),
                    json_text(stop_json(wait)),
                ),
                Err(e) => unframed(stop_json(wait), e@),
            },
    {
        crate::payload::frame_for(self.token, &stop_payload(wait))
    }

    /// Closes the change feed that this connection holds.
    ///
    /// On a connection that holds none this does nothing and succeeds
    /// without a frame. On one that does, it gives the `STOP` frame to
    /// send, with the wish for an answer if `arg` asks to wait, and the
    /// session's change feed is closed. It fails exactly where the `STOP`
    /// document cannot be sent in a frame; the feed then stays open.
    pub fn close<T: Arg>(&self, session: &mut Session, arg: T) -> (r: Result<
        Option<Vec<u8>>,
        ReqlError,
    >)
        ensures
            match r {
                Ok(None) => {
                    &&& old(session)@.feed != Some(self.token())
                    &&& final(session)@ == old(session)@
                },
                Ok(Some(frame)) => {
                    &&& old(session)@.feed == Some(self.token())
                    &&& frames(stop_json(arg.waits()))
                    &&& frame@ == frame_bytes(self.token(), json_text(stop_json(arg.waits())))
                    &&& final(session)@ == (SessionView { feed: None, ..old(session)@ })
                },
                Err(e) => {
                    &&& old(session)@.feed == Some(self.token())
                    &&& final(session)@ == old(session)@
                    &&& unframed(stop_json(arg.waits()), e@)
                },
            },
    {
        if !session.owns_change_feed(self.token) {
            return Ok(None);
        }
        match self.stop(arg.noreply_wait()) {
            Ok(frame) => {
                session.unmark_change_feed();
                Ok(Some(frame))
            },
            Err(e) => Err(e),
        }
    }
}

/// The state of one connection to the server.
#[derive(Debug)]
pub struct Session {
    db: String,
    channels: DashMap<u64, Inbox>,
    token: u64,
    broken: bool,
    change_feed: Option<u64>,
}

/// The mathematical value of a [`Session`].
pub ghost struct SessionView {
    /// The database that unqualified tables are looked up in.
    pub db: Seq<char>,
    /// The token that the next lease gets.
    pub next_token: u64,
    /// Whether the connection is lost for good.
    pub broken: bool,
    /// The token of the query that holds the open change feed, if one is
    /// open.
    pub feed: Option<u64>,
    /// The routing table: the unread messages of every leased token.
    pub inboxes: Map<u64, Seq<Inbound>>,
}

impl SessionView {
    /// The session as it starts: no lease yet, the first token is 1.
    pub open spec fn fresh(db: Seq<char>) -> SessionView {
        SessionView { db, next_token: 1, broken: false, feed: None, inboxes: Map::empty() }
    }

    /// Whether a lease is refused, and with which kind of error.
    pub open spec fn refusal(self) -> Option<ErrorKind> {
        if self.broken {
            Some(ErrorKind::ConnectionBroken)
        } else if self.feed is Some {
            Some(ErrorKind::ConnectionLocked)
        } else {
            None
        }
    }

    /// The session after the counter gave out its next token: the counter
    /// moves on by one; at the last token it stays and the session is
    /// broken.
    pub open spec fn counted(self) -> SessionView {
        if self.next_token == u64::MAX {
            SessionView { broken: true, ..self }
        } else {
            SessionView { next_token: (self.next_token + 1) as u64, ..self }
        }
    }

    /// The session after a lease: the counter gave out a token, and the
    /// token has an empty inbox.
    pub open spec fn leased(self) -> SessionView {
        SessionView {
            inboxes: self.inboxes.insert(self.next_token, Seq::empty()),
            ..self.counted()
        }
    }

    /// The session after `message` was routed to `token`: appended to the
    /// token's inbox if it has one, dropped if not.
    pub open spec fn delivered(self, token: u64, message: Inbound) -> SessionView {
        if self.inboxes.dom().contains(token) {
            SessionView {
                inboxes: self.inboxes.insert(token, self.inboxes[token].push(message)),
                ..self
            }
        } else {
            self
        }
    }

    /// The session after the lease on `token` was handed back: the token
    /// has no inbox, and a change feed that it held is closed.
    pub open spec fn released(self, token: u64) -> SessionView {
        SessionView {
            inboxes: self.inboxes.remove(token),
            feed: if self.feed == Some(token) {
                None
            } else {
                self.feed
            },
            ..self
        }
    }

    /// The session after the connection was lost: broken, and every inbox
    /// ends with the error that says so.
    pub open spec fn disconnected(self) -> SessionView {
        SessionView {
            broken: true,
            inboxes: Map::new(
                |t: u64| self.inboxes.dom().contains(t),
                |t: u64| self.inboxes[t].push(Err(ReqlError::Driver(Driver::ConnectionBroken))),
            ),
            ..self
        }
    }

    /// The session after the oldest message for `token` was read.
    pub open spec fn read(self, token: u64) -> SessionView {
        if self.inboxes.dom().contains(token) && self.inboxes[token].len() > 0 {
            SessionView {
                inboxes: self.inboxes.insert(token, self.inboxes[token].drop_first()),
                ..self
            }
        } else {
            self
        }
    }

    /// The oldest unread message for `token`.
    pub open spec fn oldest(self, token: u64) -> Option<Inbound> {
        if self.inboxes.dom().contains(token) && self.inboxes[token].len() > 0 {
            Some(self.inboxes[token][0])
        } else {
            None
        }
    }
}

impl View for Session {
    type V = SessionView;

    closed spec fn view(&self) -> SessionView {
        SessionView {
            db: self.db@,
            next_token: self.token,
            broken: self.broken,
            feed: self.change_feed,
            inboxes: routes(self.channels),
        }
    }
}

/// What became of a frame that arrived.
#[derive(Debug, Clone, Copy, PartialEq, Eq, Structural)]
pub enum Routed {
    /// Its token has an inbox, and the response is in it.
    Delivered,
    /// Its token has no inbox: the caller gave the query up.
    Dropped,
    /// Its payload was no response: the session is broken, and the reader
    /// stops.
    Broken,
}

impl Session {
    /// Whether the session is sound: every leased token is one that the
    /// counter has given out.
    pub open spec fn wf(&self) -> bool {
        forall|t: u64| #[trigger]
            self@.inboxes.dom().contains(t) ==> t < self@.next_token || (self@.broken && t
                == self@.next_token)
    }

    /// The state of a connection on which the handshake has just ended.
    pub fn new(db: String) -> (s: Session)
        ensures
            s.wf(),
            s@ == SessionView::fresh(db@),
    {
        let s = Session { db, channels: table_new(), token: 1, broken: false, change_feed: None };
        proof {
            assert(s@.inboxes =~= Map::<u64, Seq<Inbound>>::empty());
        }
        s
    }

    /// Gives out the next token.
    ///
    /// Tokens start at 1 and go up by one. The last one, `u64::MAX`, is
    /// still given out, and with it the session is broken.
    fn token(&mut self) -> (t: u64)
        ensures
            t == old(self)@.next_token,
            final(self)@ == old(self)@.counted(),
    {
        let t = self.token;
        if t == u64::MAX {
            self.mark_broken();
        } else {
            self.token = t + 1;
        }
        t
    }

    /// Leases a token for a new query and gives it an empty inbox.
    ///
    /// A broken session refuses with `ConnectionBroken`, one with an open
    /// change feed with `ConnectionLocked`; any other session grants the
    /// lease. The token is one that no lease of this session had before.
    pub fn connection(&mut self) -> (r: Result<Connection, ReqlError>)
        requires
            old(self).wf(),
        ensures
            final(self).wf(),
            match r {
                Ok(c) => {
                    &&& old(self)@.refusal() is None
                    &&& c.token() == old(self)@.next_token
                    &&& !old(self)@.inboxes.dom().contains(c.token())
                    &&& final(self)@ == old(self)@.leased()
                },
                Err(e) => {
                    &&& old(self)@.refusal() == Some(e@.kind)
                    &&& e@ == Fault::bare(e@.kind)
                    &&& final(self)@ == old(self)@
                },
            },
    {
        match self.broken() {
            Err(e) => {
                return Err(e);
            },
            Ok(()) => {},
        }
        match self.change_feed() {
            Err(e) => {
                return Err(e);
            },
            Ok(()) => {},
        }
        let token = self.token();
        table_insert(&mut self.channels, token, Vec::new());
        Ok(Connection::new(token))
    }

    /// Leases a token for a query whose payload is `payload`, and frames
    /// the payload for it.
    ///
    /// A broken session refuses with `ConnectionBroken`, one with an open
    /// change feed with `ConnectionLocked`; a payload too long for a frame
    /// is refused too. Nothing is leased where the request is refused.
    pub fn request(&mut self, payload: &[u8]) -> (r: Result<(Connection, Vec<u8>), ReqlError>)
        requires
            old(self).wf(),
        ensures
            final(self).wf(),
            match r {
                Ok((c, frame)) => {
                    &&& old(self)@.refusal() is None
                    &&& payload@.len() <= u32::MAX
                    &&& c.token() == old(self)@.next_token
                    &&& !old(self)@.inboxes.dom().contains(c.token())
                    &&& final(self)@ == old(self)@.leased()
                    &&& frame@ == frame_bytes(c.token(), payload@)
                },
                Err(e) => {
                    &&& final(self)@ == old(self)@
                    &&& match old(self)@.refusal() {
                        Some(kind) => e@ == Fault::bare(kind),
                        None => payload@.len() > u32::MAX && e@ == too_large(),
                    }
                },
            },
    {
        match self.broken() {
            Err(e) => {
                return Err(e);
            },
            Ok(()) => {},
        }
        match self.change_feed() {
            Err(e) => {
                return Err(e);
            },
            Ok(()) => {},
        }
        if payload.len() > u32::MAX as usize {
            return Err(
                ReqlError::Driver(Driver::Other("payload too large for a frame".to_owned())),
            );
        }
        let connection = match self.connection() {
            Ok(connection) => connection,
            Err(e) => {
                return Err(e);
            },
        };
        match encode_frame(connection.token(), payload) {
            Ok(frame) => Ok((connection, frame)),
            Err(e) => {
                self.release(connection);
                Err(e)
            },
        }
    }

    /// Leases a token for a query that is nothing but its kind, and frames
    /// it.
    ///
    /// A session that refuses leases refuses this. One that grants them
    /// succeeds exactly where the document can be sent in a frame; nothing
    /// is leased where it cannot.
    pub fn ask(&mut self, kind: QueryType) -> (r: Result<(Connection, Vec<u8>), ReqlError>)
        requires
            old(self).wf(),
        ensures
            final(self).wf(),
            old(self)@.refusal() is Some ==> r is Err,
            match r {
                Ok((c, frame)) => {
                    &&& old(self)@.refusal() is None
                    &&& c.token() == old(self)@.next_token
                    &&& !old(self)@.inboxes.dom().contains(c.token())
                    &&& final(self)@ == old(self)@.leased()
                    &&& frames(payload_json(kind, None, None))
                    &&& frame@ == frame_bytes(c.token(), json_text(payload_json(kind, None, None)))
                },
                Err(e) => {
                    &&& final(self)@ == old(self)@
                    &&& match old(self)@.refusal() {
                        Some(refused) => e@ == Fault::bare(refused),
                        None => unframed(payload_json(kind, None, None), e@),
                    }
                },
            },
    {
        match self.broken() {
            Err(e) => {
                return Err(e);
            },
            Ok(()) => {},
        }
        match self.change_feed() {
            Err(e) => {
                return Err(e);
            },
            Ok(()) => {},
        }
        let document = payload(kind, None, None);
        match document.to_bytes() {
            Ok(text) => self.request(text.as_slice()),
            Err(e) => Err(e),
        }
    }

    /// Starts waiting until the server has processed the earlier queries
    /// that wanted no reply: leases a token and gives the `NOREPLY_WAIT`
    /// frame to send. The wait is over when [`wait_complete`] accepts the
    /// answer.
    pub fn noreply_wait(&mut self) -> (r: Result<(Connection, Vec<u8>), ReqlError>)
        requires
            old(self).wf(),
        ensures
            final(self).wf(),
            old(self)@.refusal() is Some ==> r is Err,
            match r {
                Ok((c, frame)) => {
                    &&& old(self)@.refusal() is None
                    &&& c.token() == old(self)@.next_token
                    &&& !old(self)@.inboxes.dom().contains(c.token())
                    &&& final(self)@ == old(self)@.leased()
                    &&& frames(payload_json(QueryType::NoreplyWait, None, None))
                    &&& frame@ == frame_bytes(
                        c.token(),
                        json_text(payload_json(QueryType::NoreplyWait, None, None)),
                    )
                },
                Err(e) => {
                    &&& final(self)@ == old(self)@
                    &&& match old(self)@.refusal() {
                        Some(refused) => e@ == Fault::bare(refused),
                        None => unframed(payload_json(QueryType::NoreplyWait, None, None), e@),
                    }
                },
            },
    {
        self.ask(QueryType::NoreplyWait)
    }

    /// Starts asking the server who it is: leases a token and gives the
    /// `SERVER_INFO` frame to send. [`ServerInfo::from_response`] reads the
    /// answer.
    pub fn server(&mut self) -> (r: Result<(Connection, Vec<u8>), ReqlError>)
        requires
            old(self).wf(),
        ensures
            final(self).wf(),
            old(self)@.refusal() is Some ==> r is Err,
            match r {
                Ok((c, frame)) => {
                    &&& old(self)@.refusal() is None
                    &&& c.token() == old(self)@.next_token
                    &&& !old(self)@.inboxes.dom().contains(c.token())
                    &&& final(self)@ == old(self)@.leased()
                    &&& frames(payload_json(QueryType::ServerInfo, None, None))
                    &&& frame@ == frame_bytes(
                        c.token(),
                        json_text(payload_json(QueryType::ServerInfo, None, None)),
                    )
                },
                Err(e) => {
                    &&& final(self)@ == old(self)@
                    &&& match old(self)@.refusal() {
                        Some(refused) => e@ == Fault::bare(refused),
                        None => unframed(payload_json(QueryType::ServerInfo, None, None), e@),
                    }
                },
            },
    {
        self.ask(QueryType::ServerInfo)
    }

    /// Makes `name` the database that unqualified tables are looked up in.
    pub fn use_db(&mut self, name: String)
        ensures
            final(self)@ == (SessionView { db: name@, ..old(self)@ }),
    {
        self.db = name;
    }

    /// The database that unqualified tables are looked up in.
    pub fn db(&self) -> (name: &str)
        ensures
            name@ == self@.db,
    {
        self.db.as_str()
    }

    /// Records that the connection is lost for good.
    pub fn mark_broken(&mut self)
        ensures
            final(self)@ == (SessionView { broken: true, ..old(self)@ }),
    {
        self.broken = true;
    }

    /// Fails with `ConnectionBroken` if the connection is lost.
    pub fn broken(&self) -> (r: Result<(), ReqlError>)
        ensures
            match r {
                Ok(_) => !self@.broken,
                Err(e) => self@.broken && e@ == Fault::bare(ErrorKind::ConnectionBroken),
            },
    {
        if self.broken {
            return Err(ReqlError::Driver(Driver::ConnectionBroken));
        }
        Ok(())
    }

    /// Whether the connection is lost.
    pub fn is_broken(&self) -> (b: bool)
        ensures
            b == self@.broken,
    {
        self.broken
    }

    /// Records that the query on `token` holds an open change feed.
    pub fn mark_change_feed(&mut self, token: u64)
        ensures
            final(self)@ == (SessionView { feed: Some(token), ..old(self)@ }),
    {
        self.change_feed = Some(token);
    }

    /// Records that no change feed is open.
    pub fn unmark_change_feed(&mut self)
        ensures
            final(self)@ == (SessionView { feed: None, ..old(self)@ }),
    {
        self.change_feed = None;
    }

    /// Whether a change feed is open.
    pub fn is_change_feed(&self) -> (b: bool)
        ensures
            b == self@.feed is Some,
    {
        self.change_feed.is_some()
    }

    /// Whether the query on `token` holds the open change feed.
    pub fn owns_change_feed(&self, token: u64) -> (b: bool)
        ensures
            b == (self@.feed == Some(token)),
    {
        match self.change_feed {
            Some(owner) => owner == token,
            None => false,
        }
    }

    /// Fails with `ConnectionLocked` if a change feed is open.
    pub fn change_feed(&self) -> (r: Result<(), ReqlError>)
        ensures
            match r {
                Ok(_) => self@.feed is None,
                Err(e) => self@.feed is Some && e@ == Fault::bare(ErrorKind::ConnectionLocked),
            },
    {
        if self.change_feed.is_some() {
            return Err(ReqlError::Driver(Driver::ConnectionLocked));
        }
        Ok(())
    }

    /// Whether `token` is leased.
    pub fn is_registered(&self, token: u64) -> (b: bool)
        ensures
            b == self@.inboxes.dom().contains(token),
    {
        table_contains(&self.channels, token)
    }

    /// Hands a lease back: its token leaves the routing table, so that what
    /// still arrives for it is dropped, and a change feed that it held is
    /// closed.
    pub fn release(&mut self, connection: Connection)
        requires
            old(self).wf(),
        ensures
            final(self).wf(),
            final(self)@ == old(self)@.released(connection.token()),
            !final(self)@.inboxes.dom().contains(connection.token()),
    {
        let token = connection.token();
        table_remove(&mut self.channels, token);
        if self.owns_change_feed(token) {
            self.unmark_change_feed();
        }
    }

    /// Routes a message to the inbox of `token`.
    ///
    /// The message is appended if the token is leased, and dropped if not;
    /// no other inbox changes.
    pub fn deliver(&mut self, token: u64, message: Inbound) -> (delivered: bool)
        requires
            old(self).wf(),
        ensures
            final(self).wf(),
            delivered == old(self)@.inboxes.dom().contains(token),
            final(self)@ == old(self)@.delivered(token, message),
    {
        match table_remove(&mut self.channels, token) {
            Some(mut inbox) => {
                inbox.push(message);
                table_insert(&mut self.channels, token, inbox);
                proof {
                    assert(final(self)@.inboxes =~= old(self)@.delivered(token, message).inboxes);
                }
                true
            },
            None => {
                proof {
                    assert(final(self)@.inboxes =~= old(self)@.inboxes);
                }
                false
            },
        }
    }

    /// Routes what the reader made of a frame for `token`.
    ///
    /// A response goes to the token's inbox, or is dropped if the token is
    /// not leased. A payload that was no response goes there as its error;
    /// with it the connection is lost, as [`Session::disconnect`] says.
    pub fn route(&mut self, token: u64, message: Inbound) -> (routed: Routed)
        requires
            old(self).wf(),
        ensures
            final(self).wf(),
            match message {
                Ok(_) => {
                    &&& final(self)@ == old(self)@.delivered(token, message)
                    &&& routed == if old(self)@.inboxes.dom().contains(token) {
                        Routed::Delivered
                    } else {
                        Routed::Dropped
                    }
                },
                Err(_) => {
                    &&& final(self)@ == old(self)@.delivered(token, message).disconnected()
                    &&& routed == Routed::Broken
                },
            },
    {
        let failed = message.is_err();
        let delivered = self.deliver(token, message);
        if failed {
            self.disconnect();
            Routed::Broken
        } else if delivered {
            Routed::Delivered
        } else {
            Routed::Dropped
        }
    }

    /// Takes in a frame that arrived: reads its payload as a response and
    /// routes it, as [`Session::route`] says, to the inbox of the frame's
    /// token.
    pub fn dispatch(&mut self, frame: &Frame) -> (routed: Routed)
        requires
            old(self).wf(),
        ensures
            final(self).wf(),
            routed is Broken <==> !(json_parsed(frame.payload@) matches Some(j) && is_response(j)),
            exists|read: Inbound|
                {
                    &&& #[trigger] reads_as(frame.payload@, read)
                    &&& final(self)@ == match read {
                        Ok(_) => old(self)@.delivered(frame.token, read),
                        Err(_) => old(self)@.delivered(frame.token, read).disconnected(),
                    }
                    &&& routed == match read {
                        Ok(_) => if old(self)@.inboxes.dom().contains(frame.token) {
                            Routed::Delivered
                        } else {
                            Routed::Dropped
                        },
                        Err(_) => Routed::Broken,
                    }
                },
    {
        let read = Response::parse(frame.payload.as_slice());
        let ghost witness = read;
        let routed = self.route(frame.token, read);
        proof {
            assert(reads_as(frame.payload@, witness));
        }
        routed
    }

    /// Reads the oldest message that arrived for `token`, if there is one.
    pub fn receive(&mut self, token: u64) -> (message: Option<Inbound>)
        requires
            old(self).wf(),
        ensures
            final(self).wf(),
            message == old(self)@.oldest(token),
            final(self)@ == old(self)@.read(token),
    {
        match table_remove(&mut self.channels, token) {
            Some(mut inbox) => {
                let message = if inbox.len() > 0 {
                    Some(inbox.remove(0))
                } else {
                    None
                };
                proof {
                    if message is Some {
                        assert(inbox@ =~= old(self)@.inboxes[token].drop_first());
                    }
                }
                table_insert(&mut self.channels, token, inbox);
                proof {
                    assert(final(self)@.inboxes =~= old(self)@.read(token).inboxes);
                }
                message
            },
            None => {
                proof {
                    assert(final(self)@.inboxes =~= old(self)@.inboxes);
                }
                None
            },
        }
    }

    /// Records that the connection is lost: the session is broken, and the
    /// inbox of every leased token ends with `ConnectionBroken`.
    pub fn disconnect(&mut self)
        requires
            old(self).wf(),
        ensures
            final(self).wf(),
            final(self)@ == old(self)@.disconnected(),
    {
        self.mark_broken();
        let tokens = table_tokens(&self.channels);
        let ghost before = old(self)@.inboxes;
        let mut i: usize = 0;
        while i < tokens.len()
            invariant
                i <= tokens@.len(),
                tokens@.no_duplicates(),
                forall|t: u64| tokens@.contains(t) <==> before.dom().contains(t),
                before == old(self)@.inboxes,
                self@ == (SessionView { broken: true, inboxes: self@.inboxes, ..old(self)@ }),
                self@.inboxes.dom() == before.dom(),
                forall|k: int|
                    0 <= k < i ==> self@.inboxes[#[trigger] tokens@[k]] == before[tokens@[k]].push(
                        Err(ReqlError::Driver(Driver::ConnectionBroken)),
                    ),
                forall|k: int|
                    i <= k < tokens@.len() ==> self@.inboxes[#[trigger] tokens@[k]]
                        == before[tokens@[k]],
            decreases tokens@.len() - i,
        {
            let token = tokens[i];
            let ghost mid = self@.inboxes;
            proof {
                assert(tokens@.contains(token));
            }
            match table_remove(&mut self.channels, token) {
                Some(mut inbox) => {
                    inbox.push(Err(ReqlError::Driver(Driver::ConnectionBroken)));
                    table_insert(&mut self.channels, token, inbox);
                },
                None => {},
            }
            proof {
                assert(self@.inboxes =~= mid.insert(
                    token,
                    before[token].push(Err(ReqlError::Driver(Driver::ConnectionBroken))),
                ));
                assert(self@.inboxes.dom() =~= before.dom());
                assert forall|k: int| 0 <= k < tokens@.len() && k != i implies tokens@[k]
                    != token by {}
            }
            i = i + 1;
        }
        proof {
            assert forall|t: u64| before.dom().contains(t) implies #[trigger] self@.inboxes[t]
                == before[t].push(Err(ReqlError::Driver(Driver::ConnectionBroken))) by {
                assert(tokens@.contains(t));
                let k = choose|k: int| 0 <= k < tokens@.len() && tokens@[k] == t;
                assert(self@.inboxes[tokens@[k]] == before[tokens@[k]].push(
                    Err(ReqlError::Driver(Driver::ConnectionBroken)),
                ));
            }
            assert(self@.inboxes =~= old(self)@.disconnected().inboxes);
        }
    }
}

} // verus!
