use reql::cmd::run::{Durability, Format, Options, ReadMode};
use reql::cmd::Arg;
use reql::datum::Datum;
use reql::proto::TermType;
use reql::query::Query;
use reql::r;

fn sent(q: &Query) -> String {
    String::from_utf8(q.to_datum().to_bytes().unwrap()).unwrap()
}

#[test]
fn a_call_is_type_then_arguments() {
    assert_eq!(sent(&r.table("users")), "[15,[\"users\"]]");
    assert_eq!(sent(&r.db("heroes")), "[14,[\"heroes\"]]");
    assert_eq!(sent(&r.db_list()), "[59,[]]");
    assert_eq!(sent(&r.now()), "[103,[]]");
}

#[test]
fn options_follow_the_arguments_when_there_are_any() {
    let q = r.table("users").with_opt("read_mode", Query::Datum(Datum::text("outdated")));
    assert_eq!(sent(&q), "[15,[\"users\"],{\"read_mode\":\"outdated\"}]");
    let q = q.with_opt("x", r.now());
    assert_eq!(sent(&q), "[15,[\"users\"],{\"read_mode\":\"outdated\",\"x\":[103,[]]}]");
}

#[test]
fn a_document_is_sent_as_it_is() {
    let d = Datum::parse(b"{\"a\":[1,2.5,null]}").unwrap();
    assert_eq!(sent(&Query::from_json(d)), "{\"a\":[1,2.5,null]}");
    assert_eq!(sent(&r.expr(7u64)), "7");
    assert_eq!(sent(&r.expr(true)), "true");
    assert_eq!(sent(&r.expr("s")), "\"s\"");
    assert_eq!(sent(&r.expr(r.now())), "[103,[]]");
}

#[test]
fn expr_of_several_values_is_an_array() {
    assert_eq!(sent(&r.expr((1u64, 2u64))), "[2,[1,2]]");
    assert_eq!(sent(&r.expr(())), "[2,[]]");
    assert_eq!(sent(&r.expr((1u64, "a", false))), "[2,[1,\"a\",false]]");
}

#[test]
fn terms_nest() {
    let q = r.count(r.table("users"));
    assert_eq!(sent(&q), "[43,[[15,[\"users\"]]]]");
    let q = r.table("heroes").with_parent(r.db("marvel"));
    assert_eq!(sent(&q), "[15,[[14,[\"marvel\"]],\"heroes\"]]");
    let q = r.branch((true, 1u64, 2u64)).with_arg(Query::Datum(Datum::Null));
    assert_eq!(sent(&q), "[65,[true,1,2,null]]");
}

#[test]
fn builders_leave_documents_alone() {
    let q = Query::from_json(Datum::UInt(1));
    let q = q.with_parent(r.now()).with_arg(r.now()).with_opt("a", r.now());
    assert_eq!(q, Query::Datum(Datum::UInt(1)));
}

#[test]
fn do_sends_the_function_first() {
    assert_eq!(sent(&r.do_((1u64, 2u64, r.now()))), "[64,[[103,[]],1,2]]");
    assert_eq!(sent(&r.do_(r.now())), "[64,[[103,[]]]]");
    assert_eq!(sent(&r.do_(())), "[64,[]]");
}

#[test]
fn every_command_has_its_type() {
    let one = || Query::Datum(Datum::UInt(1));
    let cases: Vec<(Query, u64)> = vec![
        (r.db_create(one()), 57),
        (r.db_drop(one()), 58),
        (r.db(one()), 14),
        (r.table_create(one()), 60),
        (r.table(one()), 15),
        (r.map(one()), 38),
        (r.union(one()), 44),
        (r.group(one()), 144),
        (r.reduce(one()), 37),
        (r.count(one()), 43),
        (r.sum(one()), 145),
        (r.avg(one()), 146),
        (r.min(one()), 147),
        (r.max(one()), 148),
        (r.distinct(one()), 42),
        (r.contains(one()), 93),
        (r.literal(one()), 137),
        (r.object(one()), 143),
        (r.random(one()), 151),
        (r.round(one()), 185),
        (r.ceil(one()), 184),
        (r.floor(one()), 183),
        (r.time(one()), 136),
        (r.epoch_time(one()), 101),
        (r.iso8601(one()), 99),
        (r.do_(one()), 64),
        (r.branch(one()), 65),
        (r.range(one()), 173),
        (r.error(one()), 12),
        (r.js(one()), 11),
        (r.info(one()), 79),
        (r.json(one()), 98),
        (r.http(one()), 153),
        (r.uuid(one()), 169),
        (r.circle(one()), 165),
        (r.distance(one()), 162),
        (r.geojson(one()), 157),
        (r.intersects(one()), 163),
        (r.line(one()), 160),
        (r.point(one()), 159),
        (r.polygon(one()), 161),
        (r.grant(one()), 188),
        (r.wait(one()), 177),
    ];
    for (q, code) in cases {
        assert_eq!(sent(&q), format!("[{},[1]]", code));
    }
}

#[test]
fn arguments_of_every_shape() {
    let terms = |args: Vec<Query>| sent(&Query::call(TermType::MakeArray, args));
    assert_eq!(terms(().into_args()), "[2,[]]");
    assert_eq!(terms("a".into_args()), "[2,[\"a\"]]");
    assert_eq!(terms(String::from("b").into_args()), "[2,[\"b\"]]");
    assert_eq!(terms(5u64.into_args()), "[2,[5]]");
    assert_eq!(terms(false.into_args()), "[2,[false]]");
    assert_eq!(terms(Datum::Null.into_args()), "[2,[null]]");
    assert_eq!(terms(r.now().into_args()), "[2,[[103,[]]]]");
    assert_eq!(terms(vec![r.now(), r.db_list()].into_args()), "[2,[[103,[]],[59,[]]]]");
    assert_eq!(terms(("a", 1u64).into_args()), "[2,[\"a\",1]]");
    assert_eq!(terms((("a", "b"), (), vec![r.now()]).into_args()), "[2,[\"a\",\"b\",[103,[]]]]");
}

#[test]
fn new_and_call() {
    assert_eq!(Query::new(TermType::Uuid), Query::Call(TermType::Uuid, vec![], vec![]));
    assert_eq!(
        Query::call(TermType::Sum, vec![r.now()]),
        Query::Call(TermType::Sum, vec![Query::Call(TermType::Now, vec![], vec![])], vec![])
    );
}

#[test]
fn run_options_name_the_database_in_any_case() {
    let text = |o: &Options, db: &str| String::from_utf8(o.to_datum(db).to_bytes().unwrap()).unwrap();
    assert_eq!(text(&Options::new(), "test"), "{\"db\":[14,[\"test\"]]}");
    assert_eq!(text(&Options::new().db("marvel"), "test"), "{\"db\":[14,[\"marvel\"]]}");
    assert_eq!(Options::default(), Options::new());
}

#[test]
fn run_options_hold_what_was_set() {
    let o = Options::new()
        .read_mode(ReadMode::Majority)
        .time_format(Format::Raw)
        .profile(true)
        .durability(Durability::Soft)
        .group_format(Format::Native)
        .noreply(false)
        .array_limit(10)
        .binary_format(Format::Raw)
        .min_batch_rows(1)
        .max_batch_rows(2)
        .max_batch_bytes(3)
        .max_batch_seconds(4)
        .first_batch_scaledown_factor(5);
    assert!(!o.is_noreply());
    assert_eq!(
        o.to_datum("d"),
        Datum::Object(vec![
            ("read_mode".to_string(), Datum::text("majority")),
            ("time_format".to_string(), Datum::text("raw")),
            ("profile".to_string(), Datum::Bool(true)),
            ("durability".to_string(), Datum::text("soft")),
            ("group_format".to_string(), Datum::text("native")),
            ("noreply".to_string(), Datum::Bool(false)),
            (
                "db".to_string(),
                Datum::Array(vec![Datum::UInt(14), Datum::Array(vec![Datum::text("d")])])
            ),
            ("array_limit".to_string(), Datum::UInt(10)),
            ("binary_format".to_string(), Datum::text("raw")),
            ("min_batch_rows".to_string(), Datum::UInt(1)),
            ("max_batch_rows".to_string(), Datum::UInt(2)),
            ("max_batch_bytes".to_string(), Datum::UInt(3)),
            ("max_batch_seconds".to_string(), Datum::UInt(4)),
            ("first_batch_scaledown_factor".to_string(), Datum::UInt(5)),
        ])
    );
}

#[test]
fn words_of_the_options() {
    assert_eq!(ReadMode::Single.to_datum(), Datum::text("single"));
    assert_eq!(ReadMode::Majority.to_datum(), Datum::text("majority"));
    assert_eq!(ReadMode::Outdated.to_datum(), Datum::text("outdated"));
    assert_eq!(Format::Native.to_datum(), Datum::text("native"));
    assert_eq!(Format::Raw.to_datum(), Datum::text("raw"));
    assert_eq!(Durability::Hard.to_datum(), Datum::text("hard"));
    assert_eq!(Durability::Soft.to_datum(), Datum::text("soft"));
    assert!(Options::new().noreply(true).is_noreply());
    assert!(!Options::new().is_noreply());
}
