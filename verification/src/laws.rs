//! What holds of a session and its cursors over any course of events.
//!
//! Every operation on a [`crate::session::Session`] says how the session's
//! value changes. Here those changes are strung together, and what the
//! driver promises of whole runs is proved of them.

use vstd::prelude::*;
use crate::cursor::{announces_feed, CursorView};
use crate::err::ErrorKind;
use crate::handshake::{answer, HandshakeView};
use crate::session::{Inbound, SessionView};

verus! {

/// One thing that happens to a session.
pub ghost enum Event {
    /// A lease is asked for.
    Lease,
    /// The lease on a token is handed back.
    Release(u64),
    /// A message arrives for a token.
    Deliver(u64, Inbound),
    /// The oldest message for a token is read.
    Read(u64),
    /// The connection is lost.
    Disconnect,
    /// The session is marked broken.
    Break,
    /// The query on a token turns out to hold a change feed.
    OpenFeed(u64),
    /// The change feed is closed.
    CloseFeed,
    /// Another database becomes the default.
    UseDb(Seq<char>),
}

impl SessionView {
    /// The token that `event` leases from this session, if it leases one.
    pub open spec fn grants(self, event: Event) -> Option<u64> {
        if event is Lease && self.refusal() is None {
            Some(self.next_token)
        } else {
            None
        }
    }

    /// The session after `event`.
    pub open spec fn after(self, event: Event) -> SessionView {
        match event {
            Event::Lease => if self.refusal() is None {
                self.leased()
            } else {
                self
            },
            Event::Release(token) => self.released(token),
            Event::Deliver(token, message) => self.delivered(token, message),
            Event::Read(token) => self.read(token),
            Event::Disconnect => self.disconnected(),
            Event::Break => SessionView { broken: true, ..self },
            Event::OpenFeed(token) => SessionView { feed: Some(token), ..self },
            Event::CloseFeed => SessionView { feed: None, ..self },
            Event::UseDb(name) => SessionView { db: name, ..self },
        }
    }

    /// The session after all of `events`, in order.
    pub open spec fn after_all(self, events: Seq<Event>) -> SessionView
        decreases events.len(),
    {
        if events.len() == 0 {
            self
        } else {
            self.after(events[0]).after_all(events.drop_first())
        }
    }

    /// The tokens that `events` lease from this session, in order.
    pub open spec fn leases(self, events: Seq<Event>) -> Seq<u64>
        decreases events.len(),
    {
        if events.len() == 0 {
            Seq::empty()
        } else {
            let rest = self.after(events[0]).leases(events.drop_first());
            match self.grants(events[0]) {
                Some(token) => seq![token] + rest,
                None => rest,
            }
        }
    }

    /// The session after all of `messages` were routed, in order.
    pub open spec fn routed(self, messages: Seq<(u64, Inbound)>) -> SessionView
        decreases messages.len(),
    {
        if messages.len() == 0 {
            self
        } else {
            self.delivered(messages[0].0, messages[0].1).routed(messages.drop_first())
        }
    }
}

/// Those of `messages` that bear `token`, in order.
pub open spec fn bearing(messages: Seq<(u64, Inbound)>, token: u64) -> Seq<Inbound>
    decreases messages.len(),
{
    if messages.len() == 0 {
        Seq::empty()
    } else if messages[0].0 == token {
        seq![messages[0].1] + bearing(messages.drop_first(), token)
    } else {
        bearing(messages.drop_first(), token)
    }
}

/// Whether `event` closes the change feed that the query on `token`
/// holds, or hands the feed to another query.
pub open spec fn ends_feed(event: Event, token: u64) -> bool {
    event is CloseFeed || event is OpenFeed || event == Event::Release(token)
}

/// A broken session stays broken, and leases nothing.
pub proof fn lemma_broken_leases_nothing(s: SessionView, events: Seq<Event>)
    requires
        s.broken,
    ensures
        s.after_all(events).broken,
        s.leases(events) == Seq::<u64>::empty(),
    decreases events.len(),
{
    if events.len() > 0 {
        lemma_broken_leases_nothing(s.after(events[0]), events.drop_first());
    }
}

/// The tokens that a session leases over any course of events count up by
/// one from the session's next token. So they rise strictly, and no two
/// leases of one session bear the same token.
pub proof fn lemma_leases_count_up(s: SessionView, events: Seq<Event>)
    ensures
        forall|i: int|
            0 <= i < s.leases(events).len() ==> #[trigger] s.leases(events)[i] == s.next_token
                + i,
        forall|i: int, j: int|
            0 <= i < j < s.leases(events).len() ==> s.leases(events)[i] < s.leases(events)[j],
        forall|i: int, j: int|
            0 <= i < s.leases(events).len() && 0 <= j < s.leases(events).len() && i != j
                ==> s.leases(events)[i] != s.leases(events)[j],
    decreases events.len(),
{
    if events.len() > 0 {
        let next = s.after(events[0]);
        let rest = next.leases(events.drop_first());
        lemma_leases_count_up(next, events.drop_first());
        match s.grants(events[0]) {
            Some(token) => {
                if s.next_token == u64::MAX {
                    lemma_broken_leases_nothing(next, events.drop_first());
                }
                assert forall|i: int| 0 <= i < s.leases(events).len() implies #[trigger] s.leases(
                    events,
                )[i] == s.next_token + i by {
                    if i > 0 {
                        assert(s.leases(events)[i] == rest[i - 1]);
                    }
                }
            },
            None => {
                assert(next.next_token == s.next_token);
            },
        }
    }
}

/// The tokens that a new session leases are 1, 2, 3 and so on.
pub proof fn lemma_leases_start_at_one(db: Seq<char>, events: Seq<Event>)
    ensures
        forall|i: int|
            0 <= i < SessionView::fresh(db).leases(events).len() ==> #[trigger] SessionView::fresh(
                db,
            ).leases(events)[i] == 1 + i,
{
    lemma_leases_count_up(SessionView::fresh(db), events);
}

/// While the query on `token` holds a change feed, and until an event ends
/// the feed, the feed stays open and the session leases nothing: every
/// lease is refused, with `ConnectionLocked` unless the session is broken.
pub proof fn lemma_locked_until_closed(s: SessionView, token: u64, events: Seq<Event>)
    requires
        s.feed == Some(token),
        forall|i: int| 0 <= i < events.len() ==> !ends_feed(#[trigger] events[i], token),
    ensures
        s.after_all(events).feed == Some(token),
        s.after_all(events).refusal() is Some,
        !s.after_all(events).broken ==> s.after_all(events).refusal() == Some(
            ErrorKind::ConnectionLocked,
        ),
        s.leases(events) == Seq::<u64>::empty(),
    decreases events.len(),
{
    if events.len() > 0 {
        assert(!ends_feed(events[0], token));
        assert forall|i: int| 0 <= i < events.drop_first().len() implies !ends_feed(
            #[trigger] events.drop_first()[i],
            token,
        ) by {
            assert(events.drop_first()[i] == events[i + 1]);
        }
        lemma_locked_until_closed(s.after(events[0]), token, events.drop_first());
    }
}

/// A cursor that enters change-feed mode does so on a response that
/// announces a feed, which is when its session records the feed.
pub proof fn lemma_feed_mode_is_announced(c: CursorView, inbound: Inbound)
    requires
        !(c.mode is ChangeFeed),
        c.accepted(inbound).mode is ChangeFeed,
    ensures
        inbound matches Ok(r) && announces_feed(c, r),
{
}

/// However the responses for different tokens are interleaved, the inbox
/// of a leased token gets those that bear the token, in the order of
/// arrival, and no others.
pub proof fn lemma_demultiplexed(s: SessionView, messages: Seq<(u64, Inbound)>, token: u64)
    ensures
        s.routed(messages).inboxes.dom() == s.inboxes.dom(),
        s.inboxes.dom().contains(token) ==> s.routed(messages).inboxes[token]
            == s.inboxes[token] + bearing(messages, token),
    decreases messages.len(),
{
    if messages.len() == 0 {
        if s.inboxes.dom().contains(token) {
            assert(s.inboxes[token] + Seq::<Inbound>::empty() =~= s.inboxes[token]);
        }
    } else {
        let next = s.delivered(messages[0].0, messages[0].1);
        lemma_demultiplexed(next, messages.drop_first(), token);
        assert(next.inboxes.dom() =~= s.inboxes.dom());
        if s.inboxes.dom().contains(token) {
            if messages[0].0 == token {
                assert(s.inboxes[token].push(messages[0].1) + bearing(
                    messages.drop_first(),
                    token,
                ) =~= s.inboxes[token] + bearing(messages, token));
            }
        }
    }
}

/// Once a lease is handed back, its token is out of the routing table at
/// once, and whatever arrives afterwards leaves it out: frames for the
/// token are dropped.
pub proof fn lemma_released_stays_out(s: SessionView, token: u64, messages: Seq<(u64, Inbound)>)
    ensures
        !s.released(token).inboxes.dom().contains(token),
        !s.released(token).routed(messages).inboxes.dom().contains(token),
        forall|message: Inbound|
            s.released(token).delivered(token, message) == s.released(token),
{
    lemma_demultiplexed(s.released(token), messages, token);
}

/// The client's answer to a challenge, proof and expected verdict, is
/// decided by the user, the password, the client's nonce and the server's
/// message, and by nothing else.
pub proof fn lemma_answer_is_determined(a: HandshakeView, b: HandshakeView, text: Seq<char>)
    requires
        a.user == b.user,
        a.password == b.password,
        a.nonce == b.nonce,
    ensures
        answer(a, text) == answer(b, text),
{
}

/// A cursor asks for the next batch only when its buffer is empty, and
/// having asked it waits: it asks again only after an answer was taken in.
pub proof fn lemma_one_continue_per_batch(c: CursorView)
    ensures
        c.has() is Continue ==> c.buffer.len() == 0 && c.stepped().has() is Wait,
        c.has() is Wait ==> c.stepped() == c,
        c.buffer.len() > 0 ==> c.has() is Item && c.stepped().pending == c.pending,
{
}

/// Whether the cursor holds no documents while it awaits an answer.
pub open spec fn drained_while_pending(c: CursorView) -> bool {
    c.pending ==> c.buffer.len() == 0
}

/// A cursor never buffers more than one batch: it starts with nothing
/// buffered, it awaits an answer only with an empty buffer, and so every
/// batch it takes in comes into an empty buffer.
pub proof fn lemma_one_batch_at_a_time(c: CursorView, inbound: Inbound)
    requires
        drained_while_pending(c),
    ensures
        drained_while_pending(c.stepped()),
        drained_while_pending(c.accepted(inbound)),
        c.accepted(inbound) != c ==> c.buffer.len() == 0,
        forall|token: u64, resume: Seq<u8>, noreply: bool|
            drained_while_pending(#[trigger] CursorView::started(token, resume, noreply)),
{
}

/// A partial batch is handed out in full before the one request for the
/// next: after an answer with `n` results the cursor has `n` items, then
/// asks to continue, then waits.
pub proof fn lemma_partial_batch(c: CursorView, n: nat) -> (end: CursorView)
    requires
        c.state is Open,
        !c.pending,
        c.buffer.len() == n,
    ensures
        end.has() is Continue,
        end.buffer.len() == 0,
        end.stepped().has() is Wait,
        end == (CursorView { buffer: c.buffer.skip(n as int), ..c }),
    decreases n,
{
    if n == 0 {
        assert(c.buffer.skip(0) =~= c.buffer);
        c
    } else {
        assert(c.has() is Item);
        let end = lemma_partial_batch(c.stepped(), (n - 1) as nat);
        assert(c.buffer.drop_first().skip(n - 1) =~= c.buffer.skip(n as int));
        end
    }
}

} // verus!
