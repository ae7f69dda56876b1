use reql::datum::{take_member, Datum};
use reql::err::{
    response_error, server_error_of_kind, Availability, Driver, ErrorKind, QueryLogic, ReqlError,
    Runtime,
};
use reql::proto::{ErrorType, ResponseNote, ResponseType};
use reql::response::Response;
use reql::text::{find_char, parse_u32};
use reql::types::ServerInfo;

#[test]
fn parse_reads_every_kind_of_value() {
    let d = Datum::parse(b"{\"a\":null,\"b\":true,\"c\":7,\"d\":\"x\",\"e\":[1,2],\"f\":{}}").unwrap();
    assert_eq!(d.get("a"), Some(&Datum::Null));
    assert_eq!(d.get("b"), Some(&Datum::Bool(true)));
    assert_eq!(d.get("c"), Some(&Datum::UInt(7)));
    assert_eq!(d.get("d"), Some(&Datum::String("x".into())));
    assert_eq!(d.get("e"), Some(&Datum::Array(vec![Datum::UInt(1), Datum::UInt(2)])));
    assert_eq!(d.get("f"), Some(&Datum::Object(vec![])));
    assert_eq!(d.get("g"), None);
}

#[test]
fn parse_keeps_other_numbers_as_they_are() {
    let d = Datum::parse(b"[-1, 1.5, 18446744073709551615]").unwrap();
    let items = d.as_array().unwrap();
    assert_eq!(items[0].as_u64(), None);
    assert_eq!(items[1].as_u64(), None);
    assert_eq!(items[2].as_u64(), Some(u64::MAX));
    assert!(matches!(items[0], Datum::Number(_)));
    assert_eq!(d.to_bytes().unwrap(), b"[-1,1.5,18446744073709551615]");
}

#[test]
fn settle_holds_whole_numbers_as_such() {
    let number = |text: &str| match serde_json::from_str::<serde_json::Value>(text).unwrap() {
        serde_json::Value::Number(n) => Datum::Number(n),
        other => panic!("unexpected {:?}", other),
    };
    assert_eq!(number("5").settle(), Datum::UInt(5));
    assert_eq!(number("0").settle(), Datum::UInt(0));
    assert_eq!(number("18446744073709551615").settle(), Datum::UInt(u64::MAX));
    assert_eq!(number("-5").settle(), number("-5"));
    assert_eq!(number("5.0").settle(), number("5.0"));
    assert_eq!(number("3.1e6").settle(), number("3.1e6"));
    let nested = Datum::Object(vec![(
        "a".to_string(),
        Datum::Array(vec![number("1"), number("1.5"), Datum::text("1"), Datum::UInt(2)]),
    )]);
    assert_eq!(
        nested.settle(),
        Datum::Object(vec![(
            "a".to_string(),
            Datum::Array(vec![Datum::UInt(1), number("1.5"), Datum::text("1"), Datum::UInt(2)]),
        )])
    );
    assert_eq!(number("7").to_bytes().unwrap(), b"7");
}

#[test]
fn parse_refuses_what_is_no_json() {
    assert_eq!(Datum::parse(b"{\"a\":").unwrap_err().kind(), ErrorKind::Json);
    assert_eq!(Datum::parse(b"").unwrap_err().kind(), ErrorKind::Json);
    assert_eq!(Datum::parse(b"[1] x").unwrap_err().kind(), ErrorKind::Json);
}

#[test]
fn to_bytes_writes_compact_json() {
    let d = Datum::Object(vec![
        ("name".to_string(), Datum::text("a\"b")),
        ("list".to_string(), Datum::Array(vec![Datum::Null, Datum::Bool(false), Datum::UInt(0)])),
    ]);
    assert_eq!(d.to_bytes().unwrap(), b"{\"list\":[null,false,0],\"name\":\"a\\\"b\"}");
}

#[test]
fn accessors_tell_the_kinds_apart() {
    assert_eq!(Datum::UInt(3).as_u64(), Some(3));
    assert_eq!(Datum::Bool(true).as_u64(), None);
    assert_eq!(Datum::text("hi").as_str(), Some("hi"));
    assert_eq!(Datum::UInt(3).as_str(), None);
    assert_eq!(Datum::Bool(false).as_bool(), Some(false));
    assert_eq!(Datum::Null.as_bool(), None);
    assert_eq!(Datum::Array(vec![Datum::Null]).as_array(), Some(&vec![Datum::Null]));
    assert_eq!(Datum::Null.as_array(), None);
    assert_eq!(Datum::Array(vec![Datum::UInt(1)]).into_array(), Some(vec![Datum::UInt(1)]));
    assert_eq!(Datum::UInt(1).into_array(), None);
    assert_eq!(Datum::UInt(1).get("a"), None);
}

#[test]
fn get_finds_the_first_member_with_the_key() {
    let d = Datum::Object(vec![
        ("k".to_string(), Datum::UInt(1)),
        ("other".to_string(), Datum::UInt(2)),
        ("k".to_string(), Datum::UInt(3)),
    ]);
    assert_eq!(d.get("k"), Some(&Datum::UInt(1)));
    assert_eq!(d.get("other"), Some(&Datum::UInt(2)));
}

#[test]
fn take_member_removes_the_first_match_only() {
    let mut members = vec![
        ("a".to_string(), Datum::UInt(1)),
        ("b".to_string(), Datum::UInt(2)),
        ("a".to_string(), Datum::UInt(3)),
    ];
    assert_eq!(take_member(&mut members, "a"), Some(Datum::UInt(1)));
    assert_eq!(
        members,
        vec![("b".to_string(), Datum::UInt(2)), ("a".to_string(), Datum::UInt(3))]
    );
    assert_eq!(take_member(&mut members, "c"), None);
    assert_eq!(members.len(), 2);
}

#[test]
fn duplicate_copies_the_whole_tree() {
    let d = Datum::parse(b"{\"a\":[1,{\"b\":[true,null,\"s\",2.5]}]}").unwrap();
    assert_eq!(d.duplicate(), d);
}

#[test]
fn response_with_every_member() {
    let r = Response::parse(
        b"{\"t\":3,\"r\":[{\"id\":1},{\"id\":2}],\"n\":[1,5,9],\"e\":4100000,\"b\":[0],\"p\":{\"x\":1}}",
    )
    .unwrap();
    assert_eq!(r.kind, ResponseType::SuccessPartial);
    assert_eq!(
        r.results,
        vec![
            Datum::Object(vec![("id".to_string(), Datum::UInt(1))]),
            Datum::Object(vec![("id".to_string(), Datum::UInt(2))]),
        ]
    );
    assert_eq!(r.notes, vec![ResponseNote::SequenceFeed, ResponseNote::IncludesStates]);
    assert_eq!(r.class, Some(ErrorType::OpFailed));
    assert_eq!(r.backtrace, Some(Datum::Array(vec![Datum::UInt(0)])));
    assert_eq!(r.profile, Some(Datum::Object(vec![("x".to_string(), Datum::UInt(1))])));
    assert!(r.is_feed());
}

#[test]
fn response_with_a_type_only() {
    let r = Response::parse(b"{\"t\":4}").unwrap();
    assert_eq!(r.kind, ResponseType::WaitComplete);
    assert!(r.results.is_empty());
    assert!(r.notes.is_empty());
    assert_eq!(r.class, None);
    assert_eq!(r.backtrace, None);
    assert_eq!(r.profile, None);
    assert!(!r.is_feed());
}

#[test]
fn malformed_responses_are_json_errors() {
    for payload in [
        &b"[1]"[..],
        b"{}",
        b"{\"t\":\"1\"}",
        b"{\"t\":7}",
        b"{\"t\":1,\"r\":5}",
        b"{\"t\":1,\"r\":[],\"n\":{}}",
        b"{\"t\":1.0}",
        b"not json",
    ] {
        let e = Response::parse(payload).unwrap_err();
        assert_eq!(e.kind(), ErrorKind::Json);
        assert!(matches!(e, ReqlError::Driver(Driver::Json(_))));
    }
}

#[test]
fn response_from_a_document() {
    let d = Datum::Object(vec![
        ("r".to_string(), Datum::Array(vec![Datum::text("x")])),
        ("t".to_string(), Datum::UInt(1)),
    ]);
    let r = Response::from_datum(d).unwrap();
    assert_eq!(r.kind, ResponseType::SuccessAtom);
    assert_eq!(r.results, vec![Datum::text("x")]);
    assert_eq!(
        Response::from_datum(Datum::Null).unwrap_err(),
        ReqlError::Driver(Driver::Json("response is not an object".into()))
    );
}

#[test]
fn errors_by_response_type_and_class() {
    let m = || "boom".to_string();
    let run = |class| response_error(ResponseType::RuntimeError, class, m());
    assert_eq!(
        response_error(ResponseType::ClientError, Some(ErrorType::User), m()),
        ReqlError::Runtime(Runtime::Client(m()))
    );
    assert_eq!(
        response_error(ResponseType::CompileError, None, m()),
        ReqlError::Runtime(Runtime::Compile(m()))
    );
    assert_eq!(run(None), ReqlError::Runtime(Runtime::Server(m())));
    assert_eq!(run(Some(ErrorType::Internal)), ReqlError::Runtime(Runtime::Internal(m())));
    assert_eq!(
        run(Some(ErrorType::ResourceLimit)),
        ReqlError::Runtime(Runtime::ResourceLimit(m()))
    );
    assert_eq!(
        run(Some(ErrorType::QueryLogic)),
        ReqlError::Runtime(Runtime::QueryLogic(QueryLogic::Plain(m())))
    );
    assert_eq!(
        run(Some(ErrorType::NonExistence)),
        ReqlError::Runtime(Runtime::QueryLogic(QueryLogic::NonExistence(m())))
    );
    assert_eq!(
        run(Some(ErrorType::OpFailed)),
        ReqlError::Runtime(Runtime::Availability(Availability::OpFailed(m())))
    );
    assert_eq!(
        run(Some(ErrorType::OpIndeterminate)),
        ReqlError::Runtime(Runtime::Availability(Availability::OpIndeterminate(m())))
    );
    assert_eq!(run(Some(ErrorType::User)), ReqlError::Runtime(Runtime::User(m())));
    assert_eq!(
        run(Some(ErrorType::PermissionError)),
        ReqlError::Runtime(Runtime::Permission(m()))
    );
}

#[test]
fn error_of_a_response_carries_its_first_result() {
    let r = Response::parse(b"{\"t\":17,\"r\":[\"bad term\",\"more\"]}").unwrap();
    assert_eq!(r.error(), Some(ReqlError::Runtime(Runtime::Compile("bad term".into()))));
    let r = Response::parse(b"{\"t\":16,\"r\":[5]}").unwrap();
    assert_eq!(r.error(), Some(ReqlError::Runtime(Runtime::Client(String::new()))));
    let r = Response::parse(b"{\"t\":18}").unwrap();
    assert_eq!(r.error(), Some(ReqlError::Runtime(Runtime::Server(String::new()))));
    let r = Response::parse(b"{\"t\":2,\"r\":[\"fine\"],\"e\":1000000}").unwrap();
    assert_eq!(r.error(), None);
}

#[test]
fn kinds_and_messages_of_errors() {
    let e = ReqlError::Driver(Driver::Auth("denied".into(), Some(12)));
    assert_eq!(e.kind(), ErrorKind::Auth);
    assert_eq!(e.message(), "denied");
    assert_eq!(e.duplicate(), e);
    assert_eq!(ReqlError::Driver(Driver::ConnectionBroken).kind(), ErrorKind::ConnectionBroken);
    assert_eq!(ReqlError::Driver(Driver::ConnectionLocked).message(), "");
    assert_eq!(ReqlError::Driver(Driver::Timeout).kind(), ErrorKind::Timeout);
    assert_eq!(ReqlError::Driver(Driver::Timeout).duplicate(), ReqlError::Driver(Driver::Timeout));
    assert_eq!(ReqlError::Driver(Driver::Io("eof".into())).kind(), ErrorKind::Io);
    assert_eq!(ReqlError::Driver(Driver::Other("x".into())).message(), "x");
    let e = ReqlError::Runtime(Runtime::QueryLogic(QueryLogic::NonExistence("gone".into())));
    assert_eq!(e.kind(), ErrorKind::NonExistence);
    assert_eq!(e.duplicate(), e);
    assert!(ErrorKind::Json.is_driver());
    assert!(!ErrorKind::User.is_driver());
    assert_eq!(
        server_error_of_kind(ErrorKind::Timeout, "t".into()),
        ReqlError::Driver(Driver::Other("t".into()))
    );
    assert_eq!(
        server_error_of_kind(ErrorKind::Io, "t".into()),
        ReqlError::Driver(Driver::Io("t".into()))
    );
}

#[test]
fn server_info_from_a_document() {
    let d = Datum::parse(b"{\"id\":\"a1\",\"name\":\"srv\",\"proxy\":false}").unwrap();
    assert_eq!(
        ServerInfo::from_datum(&d),
        Some(ServerInfo { id: "a1".into(), name: Some("srv".into()), proxy: false })
    );
    let d = Datum::parse(b"{\"id\":\"a1\",\"proxy\":true}").unwrap();
    assert_eq!(
        ServerInfo::from_datum(&d),
        Some(ServerInfo { id: "a1".into(), name: None, proxy: true })
    );
    assert_eq!(ServerInfo::from_datum(&Datum::parse(b"{\"id\":1,\"proxy\":true}").unwrap()), None);
    assert_eq!(ServerInfo::from_datum(&Datum::parse(b"{\"id\":\"a\"}").unwrap()), None);
}

#[test]
fn server_info_from_an_answer() {
    let ok = Response::parse(b"{\"t\":5,\"r\":[{\"id\":\"x\",\"name\":\"n\",\"proxy\":false}]}");
    assert_eq!(
        ServerInfo::from_response(ok),
        Ok(ServerInfo { id: "x".into(), name: Some("n".into()), proxy: false })
    );
    assert_eq!(
        ServerInfo::from_response(Response::parse(b"{\"t\":5,\"r\":[]}")),
        Err(ReqlError::Driver(Driver::Other("server info is empty".into())))
    );
    assert_eq!(
        ServerInfo::from_response(Response::parse(b"{\"t\":5,\"r\":[3]}")),
        Err(ReqlError::Driver(Driver::Json("malformed server info".into())))
    );
    assert_eq!(
        ServerInfo::from_response(Response::parse(b"{\"t\":18,\"r\":[\"no\"],\"e\":6000000}")),
        Err(ReqlError::Runtime(Runtime::Permission("no".into())))
    );
    assert_eq!(
        ServerInfo::from_response(Err(ReqlError::Driver(Driver::ConnectionBroken))),
        Err(ReqlError::Driver(Driver::ConnectionBroken))
    );
}

#[test]
fn find_char_gives_the_first_position() {
    assert_eq!(find_char("a,b,c", ',', 0), 1);
    assert_eq!(find_char("a,b,c", ',', 1), 1);
    assert_eq!(find_char("a,b,c", ',', 2), 3);
    assert_eq!(find_char("a,b,c", ',', 4), 5);
    assert_eq!(find_char("a,b,c", ',', 9), 5);
    assert_eq!(find_char("é,b", ',', 0), 1);
    assert_eq!(find_char("", ',', 0), 0);
}

#[test]
fn parse_u32_reads_digits_only() {
    assert_eq!(parse_u32("i=4096", 2, 6), Some(4096));
    assert_eq!(parse_u32("0", 0, 1), Some(0));
    assert_eq!(parse_u32("007", 0, 3), Some(7));
    assert_eq!(parse_u32("4294967295", 0, 10), Some(u32::MAX));
    assert_eq!(parse_u32("4294967296", 0, 10), None);
    assert_eq!(parse_u32("99999999999999999999999", 0, 23), None);
    assert_eq!(parse_u32("12a", 0, 3), None);
    assert_eq!(parse_u32("-1", 0, 2), None);
    assert_eq!(parse_u32("12", 1, 1), None);
    assert_eq!(parse_u32("12", 2, 1), None);
    assert_eq!(parse_u32("12", 0, 3), None);
}
