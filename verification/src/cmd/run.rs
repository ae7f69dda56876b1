//! What a query is run with.

use vstd::prelude::*;
use crate::datum::{json_members, lemma_object_view, opt_json, Datum, Json};
use crate::proto::TermType;
use crate::query::{term_json, Query, Term};

verus! {

/// How fresh the data read must be.
#[derive(Debug, Clone, Copy, PartialEq, Eq, Structural)]
pub enum ReadMode {
    Single,
    Majority,
    Outdated,
}

/// Whether a value comes back as the driver's own type or as the server
/// holds it.
#[derive(Debug, Clone, Copy, PartialEq, Eq, Structural)]
pub enum Format {
    Native,
    Raw,
}

/// Whether writes wait for the disk.
#[derive(Debug, Clone, Copy, PartialEq, Eq, Structural)]
pub enum Durability {
    Hard,
    Soft,
}

impl ReadMode {
    /// The word for this mode on the wire.
    pub open spec fn word(self) -> Seq<char> {
        match self {
            ReadMode::Single => "single"@,
            ReadMode::Majority => "majority"@,
            ReadMode::Outdated => "outdated"@,
        }
    }

    /// The word for this mode on the wire, as a document.
    pub fn to_datum(self) -> (d: Datum)
        ensures
            d@ == Json::String(self.word()),
    {
        match self {
            ReadMode::Single => Datum::text("single"),
            ReadMode::Majority => Datum::text("majority"),
            ReadMode::Outdated => Datum::text("outdated"),
        }
    }
}

impl Format {
    /// The word for this format on the wire.
    pub open spec fn word(self) -> Seq<char> {
        match self {
            Format::Native => "native"@,
            Format::Raw => "raw"@,
        }
    }

    /// The word for this format on the wire, as a document.
    pub fn to_datum(self) -> (d: Datum)
        ensures
            d@ == Json::String(self.word()),
    {
        match self {
            Format::Native => Datum::text("native"),
            Format::Raw => Datum::text("raw"),
        }
    }
}

impl Durability {
    /// The word for this durability on the wire.
    pub open spec fn word(self) -> Seq<char> {
        match self {
            Durability::Hard => "hard"@,
            Durability::Soft => "soft"@,
        }
    }

    /// The word for this durability on the wire, as a document.
    pub fn to_datum(self) -> (d: Datum)
        ensures
            d@ == Json::String(self.word()),
    {
        match self {
            Durability::Hard => Datum::text("hard"),
            Durability::Soft => Datum::text("soft"),
        }
    }
}

/// What a query is run with. An option that is `None` is left to the
/// server, but for the database, which is then the session's.
#[derive(Debug, Clone, PartialEq, Eq)]
pub struct Options {
    /// How fresh the data read must be.
    pub read_mode: Option<ReadMode>,
    /// How times come back.
    pub time_format: Option<Format>,
    /// Whether the server profiles the query.
    pub profile: Option<bool>,
    /// Whether writes wait for the disk.
    pub durability: Option<Durability>,
    /// How grouped data comes back.
    pub group_format: Option<Format>,
    /// Whether the server answers at all.
    pub noreply: Option<bool>,
    /// The database that unqualified tables are looked up in.
    pub db: Option<String>,
    /// The longest array the server may build.
    pub array_limit: Option<u64>,
    /// How binary data comes back.
    pub binary_format: Option<Format>,
    /// The fewest rows in a batch.
    pub min_batch_rows: Option<u64>,
    /// The most rows in a batch.
    pub max_batch_rows: Option<u64>,
    /// The most bytes in a batch.
    pub max_batch_bytes: Option<u64>,
    /// The longest the server gathers a batch, in seconds.
    pub max_batch_seconds: Option<u64>,
    /// By how much the first batch is smaller.
    pub first_batch_scaledown_factor: Option<u64>,
}

/// The mathematical value of [`Options`].
pub ghost struct OptionsView {
    pub read_mode: Option<ReadMode>,
    pub time_format: Option<Format>,
    pub profile: Option<bool>,
    pub durability: Option<Durability>,
    pub group_format: Option<Format>,
    pub noreply: Option<bool>,
    pub db: Option<Seq<char>>,
    pub array_limit: Option<u64>,
    pub binary_format: Option<Format>,
    pub min_batch_rows: Option<u64>,
    pub max_batch_rows: Option<u64>,
    pub max_batch_bytes: Option<u64>,
    pub max_batch_seconds: Option<u64>,
    pub first_batch_scaledown_factor: Option<u64>,
}

/// The view of a text that may be absent.
pub open spec fn opt_text(s: Option<String>) -> Option<Seq<char>> {
    match s {
        Some(s) => Some(s@),
        None => None,
    }
}

impl View for Options {
    type V = OptionsView;

    open spec fn view(&self) -> OptionsView {
        OptionsView {
            read_mode: self.read_mode,
            time_format: self.time_format,
            profile: self.profile,
            durability: self.durability,
            group_format: self.group_format,
            noreply: self.noreply,
            db: opt_text(self.db),
            array_limit: self.array_limit,
            binary_format: self.binary_format,
            min_batch_rows: self.min_batch_rows,
            max_batch_rows: self.max_batch_rows,
            max_batch_bytes: self.max_batch_bytes,
            max_batch_seconds: self.max_batch_seconds,
            first_batch_scaledown_factor: self.first_batch_scaledown_factor,
        }
    }
}

/// The member `name` with the value `value`, where there is one.
pub open spec fn member_if(name: Seq<char>, value: Option<Json>) -> Seq<(Seq<char>, Json)> {
    match value {
        Some(v) => seq![(name, v)],
        None => Seq::empty(),
    }
}

/// A read mode that may be absent, as a document.
pub open spec fn opt_mode(mode: Option<ReadMode>) -> Option<Json> {
    match mode {
        Some(m) => Some(Json::String(m.word())),
        None => None,
    }
}

/// A format that may be absent, as a document.
pub open spec fn opt_format(format: Option<Format>) -> Option<Json> {
    match format {
        Some(f) => Some(Json::String(f.word())),
        None => None,
    }
}

/// A durability that may be absent, as a document.
pub open spec fn opt_durability(durability: Option<Durability>) -> Option<Json> {
    match durability {
        Some(d) => Some(Json::String(d.word())),
        None => None,
    }
}

/// A truth value that may be absent, as a document.
pub open spec fn opt_flag(flag: Option<bool>) -> Option<Json> {
    match flag {
        Some(b) => Some(Json::Bool(b)),
        None => None,
    }
}

/// A number that may be absent, as a document.
pub open spec fn opt_number(n: Option<u64>) -> Option<Json> {
    match n {
        Some(n) => Some(Json::UInt(n)),
        None => None,
    }
}

/// The term that names the database `name`, as it is sent.
pub open spec fn db_json(name: Seq<char>) -> Json {
    term_json(Term::call(TermType::Db, seq![Term::Datum(Json::String(name))]))
}

impl OptionsView {
    /// Options that leave everything to the server.
    pub open spec fn unset() -> OptionsView {
        OptionsView {
            read_mode: None,
            time_format: None,
            profile: None,
            durability: None,
            group_format: None,
            noreply: None,
            db: None,
            array_limit: None,
            binary_format: None,
            min_batch_rows: None,
            max_batch_rows: None,
            max_batch_bytes: None,
            max_batch_seconds: None,
            first_batch_scaledown_factor: None,
        }
    }

    /// The database the query runs in: the one these options name, else
    /// `session_db`.
    pub open spec fn database(self, session_db: Seq<char>) -> Seq<char> {
        match self.db {
            Some(name) => name,
            None => session_db,
        }
    }

    /// The members of the options object of a `START`, in order: each
    /// option that is set, and the database in any case.
    pub open spec fn members(self, session_db: Seq<char>) -> Seq<(Seq<char>, Json)> {
        member_if("read_mode"@, opt_mode(self.read_mode))
            + member_if("time_format"@, opt_format(self.time_format))
            + member_if("profile"@, opt_flag(self.profile))
            + member_if("durability"@, opt_durability(self.durability))
            + member_if("group_format"@, opt_format(self.group_format))
            + member_if("noreply"@, opt_flag(self.noreply))
            + seq![("db"@, db_json(self.database(session_db)))]
            + member_if("array_limit"@, opt_number(self.array_limit))
            + member_if("binary_format"@, opt_format(self.binary_format))
            + member_if("min_batch_rows"@, opt_number(self.min_batch_rows))
            + member_if("max_batch_rows"@, opt_number(self.max_batch_rows))
            + member_if("max_batch_bytes"@, opt_number(self.max_batch_bytes))
            + member_if("max_batch_seconds"@, opt_number(self.max_batch_seconds))
            + member_if(
            "first_batch_scaledown_factor"@,
            opt_number(self.first_batch_scaledown_factor),
        )
    }

    /// The options object of a `START`.
    pub open spec fn json(self, session_db: Seq<char>) -> Json {
        Json::Object(self.members(session_db))
    }
}

/// Appends the member `name` to `members` if there is a value for it.
fn push_if(members: &mut Vec<(String, Datum)>, name: &str, value: Option<Datum>)
    ensures
        json_members(final(members)@) == json_members(old(members)@) + member_if(
            name@,
            opt_json(value),
        ),
{
    match value {
        Some(d) => {
            members.push((name.to_owned(), d));
            proof {
                assert(json_members(members@) =~= json_members(old(members)@) + seq![(name@, d@)]);
            }
        },
        None => {
            proof {
                assert(json_members(members@) =~= json_members(old(members)@) + Seq::<
                    (Seq<char>, Json),
                >::empty());
            }
        },
    }
}

fn word_of_mode(m: Option<ReadMode>) -> (d: Option<Datum>)
    ensures
        match d {
            Some(d) => opt_mode(m) == Some(d@),
            None => opt_mode(m) is None,
        },
{
    match m {
        Some(m) => Some(m.to_datum()),
        None => None,
    }
}

fn word_of_format(f: Option<Format>) -> (d: Option<Datum>)
    ensures
        match d {
            Some(d) => opt_format(f) == Some(d@),
            None => opt_format(f) is None,
        },
{
    match f {
        Some(f) => Some(f.to_datum()),
        None => None,
    }
}

fn word_of_durability(v: Option<Durability>) -> (d: Option<Datum>)
    ensures
        match d {
            Some(d) => opt_durability(v) == Some(d@),
            None => opt_durability(v) is None,
        },
{
    match v {
        Some(v) => Some(v.to_datum()),
        None => None,
    }
}

fn flag(b: Option<bool>) -> (d: Option<Datum>)
    ensures
        match d {
            Some(d) => opt_flag(b) == Some(d@),
            None => opt_flag(b) is None,
        },
{
    match b {
        Some(b) => Some(Datum::Bool(b)),
        None => None,
    }
}

fn number(n: Option<u64>) -> (d: Option<Datum>)
    ensures
        match d {
            Some(d) => opt_number(n) == Some(d@),
            None => opt_number(n) is None,
        },
{
    match n {
        Some(n) => Some(Datum::UInt(n)),
        None => None,
    }
}

impl Options {
    /// Options that leave everything to the server.
    pub fn new() -> (o: Options)
        ensures
            o@ == OptionsView::unset(),
    {
        Options {
            read_mode: None,
            time_format: None,
            profile: None,
            durability: None,
            group_format: None,
            noreply: None,
            db: None,
            array_limit: None,
            binary_format: None,
            min_batch_rows: None,
            max_batch_rows: None,
            max_batch_bytes: None,
            max_batch_seconds: None,
            first_batch_scaledown_factor: None,
        }
    }

    /// The same options with `read_mode` set.
    pub fn read_mode(self, read_mode: ReadMode) -> (o: Options)
        ensures
            o@ == (OptionsView { read_mode: Some(read_mode), ..self@ }),
    {
        Options { read_mode: Some(read_mode), ..self }
    }

    /// The same options with `time_format` set.
    pub fn time_format(self, time_format: Format) -> (o: Options)
        ensures
            o@ == (OptionsView { time_format: Some(time_format), ..self@ }),
    {
        Options { time_format: Some(time_format), ..self }
    }

    /// The same options with `profile` set.
    pub fn profile(self, profile: bool) -> (o: Options)
        ensures
            o@ == (OptionsView { profile: Some(profile), ..self@ }),
    {
        Options { profile: Some(profile), ..self }
    }

    /// The same options with `durability` set.
    pub fn durability(self, durability: Durability) -> (o: Options)
        ensures
            o@ == (OptionsView { durability: Some(durability), ..self@ }),
    {
        Options { durability: Some(durability), ..self }
    }

    /// The same options with `group_format` set.
    pub fn group_format(self, group_format: Format) -> (o: Options)
        ensures
            o@ == (OptionsView { group_format: Some(group_format), ..self@ }),
    {
        Options { group_format: Some(group_format), ..self }
    }

    /// The same options with `noreply` set.
    pub fn noreply(self, noreply: bool) -> (o: Options)
        ensures
            o@ == (OptionsView { noreply: Some(noreply), ..self@ }),
    {
        Options { noreply: Some(noreply), ..self }
    }

    /// The same options with `db` set.
    pub fn db(self, db: &str) -> (o: Options)
        ensures
            o@ == (OptionsView { db: Some(db@), ..self@ }),
    {
        Options { db: Some(db.to_owned()), ..self }
    }

    /// The same options with `array_limit` set.
    pub fn array_limit(self, array_limit: u64) -> (o: Options)
        ensures
            o@ == (OptionsView { array_limit: Some(array_limit), ..self@ }),
    {
        Options { array_limit: Some(array_limit), ..self }
    }

    /// The same options with `binary_format` set.
    pub fn binary_format(self, binary_format: Format) -> (o: Options)
        ensures
            o@ == (OptionsView { binary_format: Some(binary_format), ..self@ }),
    {
        Options { binary_format: Some(binary_format), ..self }
    }

    /// The same options with `min_batch_rows` set.
    pub fn min_batch_rows(self, min_batch_rows: u64) -> (o: Options)
        ensures
            o@ == (OptionsView { min_batch_rows: Some(min_batch_rows), ..self@ }),
    {
        Options { min_batch_rows: Some(min_batch_rows), ..self }
    }

    /// The same options with `max_batch_rows` set.
    pub fn max_batch_rows(self, max_batch_rows: u64) -> (o: Options)
        ensures
            o@ == (OptionsView { max_batch_rows: Some(max_batch_rows), ..self@ }),
    {
        Options { max_batch_rows: Some(max_batch_rows), ..self }
    }

    /// The same options with `max_batch_bytes` set.
    pub fn max_batch_bytes(self, max_batch_bytes: u64) -> (o: Options)
        ensures
            o@ == (OptionsView { max_batch_bytes: Some(max_batch_bytes), ..self@ }),
    {
        Options { max_batch_bytes: Some(max_batch_bytes), ..self }
    }

    /// The same options with `max_batch_seconds` set.
    pub fn max_batch_seconds(self, max_batch_seconds: u64) -> (o: Options)
        ensures
            o@ == (OptionsView { max_batch_seconds: Some(max_batch_seconds), ..self@ }),
    {
        Options { max_batch_seconds: Some(max_batch_seconds), ..self }
    }

    /// The same options with `first_batch_scaledown_factor` set.
    pub fn first_batch_scaledown_factor(self, first_batch_scaledown_factor: u64) -> (o: Options)
        ensures
            o@ == (OptionsView { first_batch_scaledown_factor: Some(first_batch_scaledown_factor), ..self@ }),
    {
        Options { first_batch_scaledown_factor: Some(first_batch_scaledown_factor), ..self }
    }

    /// Whether the server is told not to answer.
    pub fn is_noreply(&self) -> (b: bool)
        ensures
            b == (self@.noreply == Some(true)),
    {
        match self.noreply {
            Some(b) => b,
            None => false,
        }
    }

    /// The options object of a `START` in a session whose database is
    /// `session_db`.
    pub fn to_datum(&self, session_db: &str) -> (d: Datum)
        ensures
            d@ == self@.json(session_db@),
    {
        let mut members: Vec<(String, Datum)> = Vec::new();
        proof {
            assert(json_members(members@) =~= Seq::<(Seq<char>, Json)>::empty());
        }
        push_if(&mut members, "read_mode", word_of_mode(self.read_mode));
        push_if(&mut members, "time_format", word_of_format(self.time_format));
        push_if(&mut members, "profile", flag(self.profile));
        push_if(&mut members, "durability", word_of_durability(self.durability));
        push_if(&mut members, "group_format", word_of_format(self.group_format));
        push_if(&mut members, "noreply", flag(self.noreply));
        let name = match &self.db {
            Some(name) => name.as_str(),
            None => session_db,
        };
        let mut args: Vec<Query> = Vec::new();
        args.push(Query::Datum(Datum::text(name)));
        let db = Query::call(TermType::Db, args);
        proof {
            assert(crate::query::term_seq(args@) =~= seq![Term::Datum(Json::String(name@))]);
        }
        push_if(&mut members, "db", Some(db.to_datum()));
        push_if(&mut members, "array_limit", number(self.array_limit));
        push_if(&mut members, "binary_format", word_of_format(self.binary_format));
        push_if(&mut members, "min_batch_rows", number(self.min_batch_rows));
        push_if(&mut members, "max_batch_rows", number(self.max_batch_rows));
        push_if(&mut members, "max_batch_bytes", number(self.max_batch_bytes));
        push_if(&mut members, "max_batch_seconds", number(self.max_batch_seconds));
        push_if(
            &mut members,
            "first_batch_scaledown_factor",
            number(self.first_batch_scaledown_factor),
        );
        proof {
            lemma_object_view(members);
            assert(json_members(members@) =~= self@.members(session_db@));
        }
        Datum::Object(members)
    }
}

impl Default for Options {
    fn default() -> (o: Options)
        ensures
            o@ == OptionsView::unset(),
    {
        Options::new()
    }
}

} // verus!
