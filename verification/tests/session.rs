use reql::cmd::close;
use reql::cmd::run::Options;
use reql::cursor::{wait_complete, Cursor, Mode, Next, State};
use reql::datum::Datum;
use reql::err::{Driver, ErrorKind, QueryLogic, ReqlError, Runtime};
use reql::frame::{encode_frame, Decoder, Frame};
use reql::proto::QueryType;
use reql::r;
use reql::response::Response;
use reql::session::{Routed, Session};
use reql::types::ServerInfo;

fn session() -> Session {
    Session::new("test".to_string())
}

fn doc(id: u64) -> Datum {
    Datum::Object(vec![("id".to_string(), Datum::UInt(id))])
}

fn frame(token: u64, payload: &[u8]) -> Vec<u8> {
    encode_frame(token, payload).unwrap()
}

/// What the reader task does with the bytes that arrived.
fn feed(session: &mut Session, bytes: &[u8]) {
    let mut decoder = Decoder::new();
    decoder.feed(bytes);
    while let Some(f) = decoder.next_frame() {
        session.dispatch(&f);
    }
}

#[test]
fn tokens_start_at_one_and_count_up() {
    let mut s = session();
    let tokens: Vec<u64> = (0..5).map(|_| s.connection().unwrap().token()).collect();
    assert_eq!(tokens, vec![1, 2, 3, 4, 5]);
}

#[test]
fn tokens_of_live_connections_differ() {
    let mut s = session();
    let a = s.connection().unwrap();
    let b = s.connection().unwrap();
    assert_ne!(a.token(), b.token());
    s.release(a);
    let c = s.connection().unwrap();
    assert_ne!(c.token(), b.token());
    assert_eq!(c.token(), 3);
}

#[test]
fn a_lease_registers_its_token() {
    let mut s = session();
    assert!(!s.is_registered(1));
    let c = s.connection().unwrap();
    assert!(s.is_registered(c.token()));
    assert!(!s.is_registered(2));
}

#[test]
fn a_broken_session_refuses_leases() {
    let mut s = session();
    assert!(!s.is_broken());
    assert_eq!(s.broken(), Ok(()));
    s.mark_broken();
    assert!(s.is_broken());
    assert_eq!(s.broken(), Err(ReqlError::Driver(Driver::ConnectionBroken)));
    assert_eq!(s.connection(), Err(ReqlError::Driver(Driver::ConnectionBroken)));
    assert_eq!(s.noreply_wait().unwrap_err(), ReqlError::Driver(Driver::ConnectionBroken));
    assert_eq!(s.server().unwrap_err(), ReqlError::Driver(Driver::ConnectionBroken));
    assert_eq!(
        s.run(&r.db_list(), &Options::new()).unwrap_err(),
        ReqlError::Driver(Driver::ConnectionBroken)
    );
    assert_eq!(s.connection(), Err(ReqlError::Driver(Driver::ConnectionBroken)));
}

#[test]
fn broken_is_reported_before_locked() {
    let mut s = session();
    s.mark_change_feed(7);
    s.mark_broken();
    assert_eq!(s.connection(), Err(ReqlError::Driver(Driver::ConnectionBroken)));
}

#[test]
fn a_change_feed_locks_the_session() {
    let mut s = session();
    assert!(!s.is_change_feed());
    assert_eq!(s.change_feed(), Ok(()));
    s.mark_change_feed(1);
    assert!(s.is_change_feed());
    assert!(s.owns_change_feed(1));
    assert!(!s.owns_change_feed(2));
    assert_eq!(s.change_feed(), Err(ReqlError::Driver(Driver::ConnectionLocked)));
    assert_eq!(s.connection(), Err(ReqlError::Driver(Driver::ConnectionLocked)));
    assert_eq!(s.connection(), Err(ReqlError::Driver(Driver::ConnectionLocked)));
    assert_eq!(s.request(b"[4]").unwrap_err(), ReqlError::Driver(Driver::ConnectionLocked));
    s.unmark_change_feed();
    assert!(!s.is_change_feed());
    assert_eq!(s.connection().unwrap().token(), 1);
}

#[test]
fn use_db_changes_the_default_database() {
    let mut s = session();
    assert_eq!(s.db(), "test");
    s.use_db("marvel".to_string());
    assert_eq!(s.db(), "marvel");
    let (_, frame) = s.run(&r.table("heroes"), &Options::new()).unwrap();
    assert_eq!(&frame[12..], b"[1,[15,[\"heroes\"]],{\"db\":[14,[\"marvel\"]]}]");
}

#[test]
fn request_frames_the_payload_for_the_leased_token() {
    let mut s = session();
    s.connection().unwrap();
    let (c, frame) = s.request(b"[5]").unwrap();
    assert_eq!(c.token(), 2);
    assert_eq!(frame, vec![2, 0, 0, 0, 0, 0, 0, 0, 3, 0, 0, 0, b'[', b'5', b']']);
    assert!(s.is_registered(2));
}

#[test]
fn responses_reach_only_the_cursor_with_their_token() {
    let mut s = session();
    let a = s.connection().unwrap();
    let b = s.connection().unwrap();
    let mut wire = frame(1, b"{\"t\":3,\"r\":[1]}");
    wire.extend(frame(2, b"{\"t\":3,\"r\":[10]}"));
    wire.extend(frame(2, b"{\"t\":3,\"r\":[20]}"));
    wire.extend(frame(1, b"{\"t\":2,\"r\":[2]}"));
    wire.extend(frame(2, b"{\"t\":2,\"r\":[30]}"));
    feed(&mut s, &wire);
    let read = |s: &mut Session, token: u64| -> Vec<Datum> {
        let mut seen = vec![];
        while let Some(m) = s.receive(token) {
            seen.extend(m.unwrap().results);
        }
        seen
    };
    assert_eq!(read(&mut s, b.token()), vec![Datum::UInt(10), Datum::UInt(20), Datum::UInt(30)]);
    assert_eq!(read(&mut s, a.token()), vec![Datum::UInt(1), Datum::UInt(2)]);
    assert_eq!(s.receive(a.token()), None);
}

#[test]
fn deliver_appends_and_receive_reads_the_oldest() {
    let mut s = session();
    let c = s.connection().unwrap();
    assert!(s.deliver(1, Err(ReqlError::Driver(Driver::Timeout))));
    assert!(s.deliver(1, Err(ReqlError::Driver(Driver::Io("x".into())))));
    assert!(!s.deliver(2, Err(ReqlError::Driver(Driver::Timeout))));
    assert_eq!(s.receive(c.token()), Some(Err(ReqlError::Driver(Driver::Timeout))));
    assert_eq!(s.receive(c.token()), Some(Err(ReqlError::Driver(Driver::Io("x".into())))));
    assert_eq!(s.receive(c.token()), None);
    assert_eq!(s.receive(2), None);
}

#[test]
fn frames_for_a_released_token_are_dropped() {
    let mut s = session();
    let c = s.connection().unwrap();
    let other = s.connection().unwrap();
    s.release(c);
    assert!(!s.is_registered(1));
    assert_eq!(s.route(1, Response::parse(b"{\"t\":1,\"r\":[1]}")), Routed::Dropped);
    assert_eq!(s.receive(1), None);
    assert!(!s.is_registered(1));
    assert!(!s.is_broken());
    assert_eq!(s.route(2, Response::parse(b"{\"t\":1,\"r\":[1]}")), Routed::Delivered);
    assert!(s.receive(other.token()).is_some());
}

#[test]
fn a_malformed_payload_breaks_the_session() {
    let mut s = session();
    s.connection().unwrap();
    s.connection().unwrap();
    assert_eq!(s.route(1, Response::parse(b"{\"t\":")), Routed::Broken);
    assert!(s.is_broken());
    assert_eq!(s.receive(1).unwrap().unwrap_err().kind(), ErrorKind::Json);
    assert_eq!(s.receive(1), Some(Err(ReqlError::Driver(Driver::ConnectionBroken))));
    assert_eq!(s.receive(1), None);
    assert_eq!(s.receive(2), Some(Err(ReqlError::Driver(Driver::ConnectionBroken))));
    assert_eq!(s.receive(2), None);
    let mut s = session();
    assert_eq!(s.route(9, Response::parse(b"nope")), Routed::Broken);
    assert!(s.is_broken());
}

#[test]
fn releasing_the_feed_owner_unlocks_the_session() {
    let mut s = session();
    let a = s.connection().unwrap();
    let b = s.connection().unwrap();
    s.mark_change_feed(a.token());
    s.release(b);
    assert!(s.is_change_feed());
    s.release(a);
    assert!(!s.is_change_feed());
    assert!(s.connection().is_ok());
}

#[test]
fn server_info_round_trip() {
    let mut s = session();
    let (c, sent) = s.server().unwrap();
    assert_eq!(sent, frame(1, b"[5]"));
    feed(&mut s, &frame(1, b"{\"t\":5,\"r\":[{\"id\":\"d0a5\",\"name\":\"alpha\",\"proxy\":false}]}"));
    let info = ServerInfo::from_response(s.receive(c.token()).unwrap()).unwrap();
    assert_eq!(info.id, "d0a5");
    assert_eq!(info.name.as_deref(), Some("alpha"));
    assert!(!info.proxy);
    s.release(c);
    assert!(!s.is_registered(1));
}

#[test]
fn partial_then_sequence_yields_all_documents_in_order() {
    let mut s = session();
    let (mut cursor, start) = s.run(&r.table("users"), &Options::new()).unwrap();
    assert_eq!(&start[..8], &[1, 0, 0, 0, 0, 0, 0, 0]);
    assert_eq!(&start[12..], b"[1,[15,[\"users\"]],{\"db\":[14,[\"test\"]]}]");
    assert_eq!(start[8] as usize, start.len() - 12);
    assert_eq!(cursor.token(), 1);
    assert_eq!(cursor.next(), Next::Wait);

    feed(&mut s, &frame(1, b"{\"t\":3, \"r\":[{\"id\":1},{\"id\":2}]}"));
    assert!(cursor.poll(&mut s));
    assert_eq!(cursor.next(), Next::Item(doc(1)));
    assert_eq!(cursor.next(), Next::Item(doc(2)));
    assert_eq!(cursor.next(), Next::Continue(frame(1, b"[2]")));
    assert_eq!(cursor.next(), Next::Wait);
    assert!(!cursor.poll(&mut s));

    feed(&mut s, &frame(1, b"{\"t\":2, \"r\":[{\"id\":3}]}"));
    assert!(cursor.poll(&mut s));
    assert_eq!(cursor.next(), Next::Item(doc(3)));
    assert_eq!(cursor.next(), Next::Done);
    assert_eq!(cursor.next(), Next::Done);
    assert_eq!(cursor.state(), State::Exhausted);
    assert_eq!(cursor.mode(), Mode::Sequence);
    cursor.release(&mut s);
    assert!(!s.is_registered(1));
}

#[test]
fn continue_is_asked_once_and_only_after_the_batch() {
    let mut s = session();
    let (mut cursor, _) = s.run(&r.table("t"), &Options::new()).unwrap();
    feed(&mut s, &frame(1, b"{\"t\":3,\"r\":[1,2,3]}"));
    cursor.poll(&mut s);
    let mut continues = 0;
    let mut items = 0;
    for _ in 0..10 {
        match cursor.next() {
            Next::Item(_) => {
                assert_eq!(continues, 0);
                items += 1;
            },
            Next::Continue(_) => continues += 1,
            Next::Wait => assert!(cursor.is_pending()),
            other => panic!("unexpected {:?}", other),
        }
    }
    assert_eq!(items, 3);
    assert_eq!(continues, 1);
}

#[test]
fn an_empty_partial_batch_asks_at_once() {
    let mut s = session();
    let (mut cursor, _) = s.run(&r.table("t"), &Options::new()).unwrap();
    feed(&mut s, &frame(1, b"{\"t\":3,\"r\":[]}"));
    assert!(cursor.poll(&mut s));
    assert_eq!(cursor.next(), Next::Continue(frame(1, b"[2]")));
    assert_eq!(cursor.next(), Next::Wait);
}

#[test]
fn atom_yields_its_single_value() {
    let mut s = session();
    let (mut cursor, _) = s.run(&r.expr("x"), &Options::new()).unwrap();
    feed(&mut s, &frame(1, b"{\"t\":1,\"r\":[[1,2]]}"));
    cursor.poll(&mut s);
    assert_eq!(cursor.mode(), Mode::Atom);
    assert_eq!(cursor.next(), Next::Item(Datum::Array(vec![Datum::UInt(1), Datum::UInt(2)])));
    assert_eq!(cursor.next(), Next::Done);
}

#[test]
fn atom_without_exactly_one_value_is_malformed() {
    for payload in [&b"{\"t\":1,\"r\":[]}"[..], b"{\"t\":1,\"r\":[1,2]}", b"{\"t\":5}"] {
        let mut s = session();
        let (mut cursor, _) = s.run(&r.now(), &Options::new()).unwrap();
        feed(&mut s, &frame(1, payload));
        cursor.poll(&mut s);
        assert_eq!(
            cursor.next(),
            Next::Failed(ReqlError::Driver(Driver::Json(
                "response does not hold exactly one value".into()
            )))
        );
        assert_eq!(cursor.next(), Next::Done);
    }
}

#[test]
fn wait_complete_yields_nothing() {
    let mut s = session();
    let (mut cursor, _) = s.run(&r.now(), &Options::new()).unwrap();
    feed(&mut s, &frame(1, b"{\"t\":4}"));
    cursor.poll(&mut s);
    assert_eq!(cursor.next(), Next::Done);
}

#[test]
fn runtime_error_is_yielded_once() {
    let mut s = session();
    let (mut cursor, _) = s.run(&r.table("nope"), &Options::new()).unwrap();
    feed(&mut s, &frame(1, b"{\"t\":18, \"r\":[\"no such table\"], \"e\":3100000}"));
    assert!(cursor.poll(&mut s));
    assert_eq!(cursor.state(), State::Errored);
    assert_eq!(
        cursor.next(),
        Next::Failed(ReqlError::Runtime(Runtime::QueryLogic(QueryLogic::NonExistence(
            "no such table".into()
        ))))
    );
    assert_eq!(cursor.next(), Next::Done);
    assert_eq!(cursor.next(), Next::Done);
    assert!(!s.is_broken());
}

#[test]
fn a_plain_logic_error_is_yielded_once() {
    let mut s = session();
    let (mut cursor, _) = s.run(&r.table("nope"), &Options::new()).unwrap();
    feed(&mut s, &frame(1, b"{\"t\":18, \"r\":[\"no such table\"], \"e\":3000000}"));
    cursor.poll(&mut s);
    assert_eq!(
        cursor.next(),
        Next::Failed(ReqlError::Runtime(Runtime::QueryLogic(QueryLogic::Plain(
            "no such table".into()
        ))))
    );
    assert_eq!(cursor.next(), Next::Done);
}

#[test]
fn a_feed_locks_the_session_until_it_is_closed() {
    let mut s = session();
    let (mut cursor, _) = s.run(&r.table("t"), &Options::new()).unwrap();
    assert!(!s.is_change_feed());
    feed(&mut s, &frame(1, b"{\"t\":3,\"r\":[{\"id\":1}],\"n\":[4]}"));
    assert!(cursor.poll(&mut s));
    assert_eq!(cursor.mode(), Mode::ChangeFeed);
    assert!(s.is_change_feed());
    assert_eq!(s.connection(), Err(ReqlError::Driver(Driver::ConnectionLocked)));
    assert_eq!(cursor.next(), Next::Item(doc(1)));
    assert_eq!(s.connection(), Err(ReqlError::Driver(Driver::ConnectionLocked)));
    assert_eq!(cursor.next(), Next::Continue(frame(1, b"[2]")));
    assert_eq!(s.connection(), Err(ReqlError::Driver(Driver::ConnectionLocked)));

    let stop = cursor.close(&mut s, ()).unwrap();
    assert_eq!(stop, Some(frame(1, b"[3,null,{\"noreply\":false}]")));
    assert!(!s.is_change_feed());
    assert_eq!(s.connection().unwrap().token(), 2);
    assert_eq!(cursor.close(&mut s, ()).unwrap(), None);
}

#[test]
fn close_without_waiting_sends_a_bare_stop() {
    let mut s = session();
    let c = s.connection().unwrap();
    s.mark_change_feed(c.token());
    let stop = c.close(&mut s, close::Options::new().noreply_wait(false)).unwrap();
    assert_eq!(stop, Some(frame(1, b"[3]")));
    assert!(!s.is_change_feed());
}

#[test]
fn close_on_an_ordinary_connection_does_nothing() {
    let mut s = session();
    let a = s.connection().unwrap();
    let b = s.connection().unwrap();
    assert_eq!(a.close(&mut s, ()).unwrap(), None);
    s.mark_change_feed(b.token());
    assert_eq!(a.close(&mut s, close::Options::new()).unwrap(), None);
    assert!(s.is_change_feed());
}

#[test]
fn only_the_first_response_can_announce_a_feed() {
    let mut s = session();
    let (mut cursor, _) = s.run(&r.table("t"), &Options::new()).unwrap();
    feed(&mut s, &frame(1, b"{\"t\":3,\"r\":[]}"));
    cursor.poll(&mut s);
    cursor.next();
    feed(&mut s, &frame(1, b"{\"t\":3,\"r\":[],\"n\":[1]}"));
    cursor.poll(&mut s);
    assert_eq!(cursor.mode(), Mode::Sequence);
    assert!(!s.is_change_feed());
}

#[test]
fn lost_connection_fails_every_cursor() {
    let mut s = session();
    let mut cursors: Vec<Cursor> =
        (0..3).map(|_| s.run(&r.table("t"), &Options::new()).unwrap().0).collect();
    assert_eq!(cursors.iter().map(|c| c.token()).collect::<Vec<_>>(), vec![1, 2, 3]);
    let decoder = Decoder::new();
    assert_eq!(decoder.end_of_stream(), ReqlError::Driver(Driver::ConnectionBroken));
    s.disconnect();
    assert!(s.is_broken());
    for cursor in cursors.iter_mut() {
        assert!(cursor.poll(&mut s));
        assert_eq!(cursor.next(), Next::Failed(ReqlError::Driver(Driver::ConnectionBroken)));
        assert_eq!(cursor.next(), Next::Done);
    }
    assert_eq!(s.connection(), Err(ReqlError::Driver(Driver::ConnectionBroken)));
}

#[test]
fn disconnect_keeps_what_arrived_before() {
    let mut s = session();
    let (mut cursor, _) = s.run(&r.table("t"), &Options::new()).unwrap();
    feed(&mut s, &frame(1, b"{\"t\":3,\"r\":[1]}"));
    s.disconnect();
    assert!(cursor.poll(&mut s));
    assert_eq!(cursor.next(), Next::Item(Datum::UInt(1)));
    assert!(matches!(cursor.next(), Next::Continue(_)));
    assert!(cursor.poll(&mut s));
    assert_eq!(cursor.next(), Next::Failed(ReqlError::Driver(Driver::ConnectionBroken)));
}

#[test]
fn noreply_wait_completes_on_its_own_token() {
    let mut s = session();
    s.connection().unwrap();
    let (c, sent) = s.noreply_wait().unwrap();
    assert_eq!(c.token(), 2);
    assert_eq!(sent, frame(2, b"[4]"));
    assert_eq!(s.receive(2), None);
    feed(&mut s, &frame(2, b"{\"t\":4}"));
    assert_eq!(s.receive(1), None);
    assert_eq!(wait_complete(s.receive(c.token()).unwrap()), Ok(()));
    s.release(c);
}

#[test]
fn wait_complete_refuses_other_answers() {
    assert_eq!(
        wait_complete(Response::parse(b"{\"t\":1,\"r\":[1]}")),
        Err(ReqlError::Driver(Driver::Other("unexpected response".into())))
    );
    assert_eq!(
        wait_complete(Response::parse(b"{\"t\":18,\"r\":[\"x\"],\"e\":5000000}")),
        Err(ReqlError::Runtime(Runtime::User("x".into())))
    );
    assert_eq!(
        wait_complete(Err(ReqlError::Driver(Driver::ConnectionBroken))),
        Err(ReqlError::Driver(Driver::ConnectionBroken))
    );
}

#[test]
fn a_query_that_wants_no_reply_has_an_empty_stream() {
    let mut s = session();
    let (mut cursor, start) = s.run(&r.table("t"), &Options::new().noreply(true)).unwrap();
    assert_eq!(&start[12..], b"[1,[15,[\"t\"]],{\"db\":[14,[\"test\"]],\"noreply\":true}]");
    assert!(!cursor.is_pending());
    assert_eq!(cursor.next(), Next::Done);
    assert!(!cursor.poll(&mut s));
}

#[test]
fn a_response_nobody_awaits_changes_nothing() {
    let mut s = session();
    let (mut cursor, _) = s.run(&r.table("t"), &Options::new()).unwrap();
    cursor.accept(&mut s, Response::parse(b"{\"t\":2,\"r\":[1]}"));
    cursor.accept(&mut s, Response::parse(b"{\"t\":2,\"r\":[2]}"));
    assert_eq!(cursor.next(), Next::Item(Datum::UInt(1)));
    assert_eq!(cursor.next(), Next::Done);
}

#[test]
fn cursor_made_by_hand() {
    let mut s = session();
    let c = s.connection().unwrap();
    let mut cursor = Cursor::new(c, vec![1, 2, 3], false);
    assert_eq!(cursor.state(), State::Open);
    cursor.accept(&mut s, Response::parse(b"{\"t\":3,\"r\":[]}"));
    assert_eq!(cursor.next(), Next::Continue(vec![1, 2, 3]));
    assert_eq!(QueryType::Continue.code(), 2);
}

#[test]
fn dispatch_says_what_became_of_the_frame() {
    let mut s = session();
    s.connection().unwrap();
    let ok = |token| Frame { token, payload: b"{\"t\":2,\"r\":[]}".to_vec() };
    assert_eq!(s.dispatch(&ok(1)), Routed::Delivered);
    assert_eq!(s.dispatch(&ok(2)), Routed::Dropped);
    assert!(!s.is_broken());
    assert_eq!(s.dispatch(&Frame { token: 1, payload: b"{\"r\":[]}".to_vec() }), Routed::Broken);
    assert!(s.is_broken());
    assert!(s.receive(1).unwrap().is_ok());
    assert_eq!(
        s.receive(1),
        Some(Err(ReqlError::Driver(Driver::Json("response without a type".into()))))
    );
    assert_eq!(s.receive(1), Some(Err(ReqlError::Driver(Driver::ConnectionBroken))));
}

#[test]
fn the_length_field_is_the_payloads_length() {
    let mut s = session();
    let (c, sent) = s.noreply_wait().unwrap();
    assert_eq!(&sent[8..12], &[3, 0, 0, 0]);
    assert_eq!(sent.len(), 12 + 3);
    let stop = c.stop(true).unwrap();
    assert_eq!(stop[8] as usize, stop.len() - 12);
    assert_eq!(&stop[9..12], &[0, 0, 0]);
    let (_, start) = s.run(&r.table("a-table"), &Options::new().db("x")).unwrap();
    assert_eq!(start[8] as usize, start.len() - 12);
    assert_eq!(&start[9..12], &[0, 0, 0]);
}

#[test]
fn frames_of_a_connection() {
    let mut s = session();
    s.connection().unwrap();
    let c = s.connection().unwrap();
    assert_eq!(c.continue_().unwrap(), frame(2, b"[2]"));
    assert_eq!(c.stop(false).unwrap(), frame(2, b"[3]"));
    assert_eq!(c.stop(true).unwrap(), frame(2, b"[3,null,{\"noreply\":false}]"));
}
