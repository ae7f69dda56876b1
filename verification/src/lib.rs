//! Sans-IO core of a RethinkDB client driver: the wire protocol, the
//! handshake and the bookkeeping that shares one connection among many
//! queries.
//!
//! Nothing here reads or writes a socket. The caller sends the bytes this
//! crate hands out and feeds it the bytes that arrive.

#![allow(non_camel_case_types)]

pub mod cmd;
pub mod cursor;
pub mod datum;
pub mod err;
pub mod frame;
pub mod handshake;
pub mod laws;
pub mod payload;
pub mod proto;
pub mod query;
pub mod response;
pub mod scram;
pub mod session;
pub mod text;
pub mod types;

use vstd::prelude::*;
use crate::cmd::Arg;
use crate::datum::json_writes;
use crate::err::Fault;
use crate::handshake::{greeting_bytes, greeting_json, Handshake};
use crate::proto::TermType;
use crate::query::{term_seq, Term};
use crate::scram::{base64_text, fresh_nonce};

pub use crate::cursor::Cursor;
pub use crate::datum::Datum;
pub use crate::err::{Availability, Driver, ErrorKind, QueryLogic, ReqlError, Runtime};
pub use crate::query::Query;
pub use crate::session::{Connection, Session};

verus! {

/// The top-level namespace of the query language.
#[derive(Debug, Clone, Copy, PartialEq, Eq)]
pub struct r;

/// The fault of a handshake that could not be opened for want of
/// randomness.
pub open spec fn no_randomness() -> Fault {
    Fault::new(ErrorKind::Io, "no randomness for a nonce"@)
}

/// The arguments of a function call as they are sent: the function, which
/// was given last, then the values.
pub open spec fn function_first(terms: Seq<Term>) -> Seq<Term> {
    if terms.len() == 0 {
        terms
    } else {
        seq![terms.last()] + terms.drop_last()
    }
}

/// The term that a list of terms is as an expression: the term itself
/// where there is one, else the array of them.
pub open spec fn expression(terms: Seq<Term>) -> Term {
    if terms.len() == 1 {
        terms[0]
    } else {
        Term::call(TermType::MakeArray, terms)
    }
}

impl r {
    /// Opens a handshake with a fresh nonce: gives its state and the bytes
    /// to send first.
    ///
    /// The nonce is 18 random bytes in base64. Where the operating system
    /// gives no randomness the error is of kind `Io`. Otherwise the
    /// handshake opens exactly where the JSON writer writes the greeting
    /// with that nonce.
    pub fn connect<T: crate::cmd::connect::Arg>(self, options: T) -> (opened: Result<
        (Handshake, Vec<u8>),
        ReqlError,
    >)
        ensures
            match opened {
                Ok((h, bytes)) => {
                    let o = options.connect_opts();
                    &&& h@.stage is Greeting
                    &&& h@.user == o.user
                    &&& h@.password == o.password
                    &&& h@.db == o.db
                    &&& h@.verdict == Seq::<char>::empty()
                    &&& exists|random: Seq<u8>| random.len() == 18 && h@.nonce == base64_text(random)
                    &&& json_writes(greeting_json(o.user, h@.nonce))
                    &&& bytes@ == greeting_bytes(o.user, h@.nonce)
                },
                Err(e) => e@ == no_randomness() || (e@.kind == ErrorKind::Json && exists|
                    random: Seq<u8>,
                |
                    random.len() == 18 && !json_writes(
                        #[trigger] greeting_json(
                            options.connect_opts().user,
                            base64_text(random),
                        ),
                    )),
            },
    {
        let options = options.into_connect_opts();
        match fresh_nonce() {
            Some(nonce) => {
                Handshake::start(options, nonce)
            },
            None => Err(ReqlError::Driver(Driver::Io("no randomness for a nonce".to_owned()))),
        }
    }

    /// Creates a database.
    pub fn db_create<T: Arg>(self, arg: T) -> (q: Query)
        ensures
            q@ == Term::call(TermType::DbCreate, arg.terms()),
    {
        Query::call(TermType::DbCreate, arg.into_args())
    }

    /// Drops a database.
    pub fn db_drop<T: Arg>(self, arg: T) -> (q: Query)
        ensures
            q@ == Term::call(TermType::DbDrop, arg.terms()),
    {
        Query::call(TermType::DbDrop, arg.into_args())
    }

    /// Lists the databases.
    pub fn db_list(self) -> (q: Query)
        ensures
            q@ == Term::call(TermType::DbList, Seq::empty()),
    {
        Query::new(TermType::DbList)
    }

    /// Refers to a database.
    pub fn db<T: Arg>(self, arg: T) -> (q: Query)
        ensures
            q@ == Term::call(TermType::Db, arg.terms()),
    {
        Query::call(TermType::Db, arg.into_args())
    }

    /// Creates a table in the default database.
    pub fn table_create<T: Arg>(self, arg: T) -> (q: Query)
        ensures
            q@ == Term::call(TermType::TableCreate, arg.terms()),
    {
        Query::call(TermType::TableCreate, arg.into_args())
    }

    /// Refers to a table of the default database.
    pub fn table<T: Arg>(self, arg: T) -> (q: Query)
        ensures
            q@ == Term::call(TermType::Table, arg.terms()),
    {
        Query::call(TermType::Table, arg.into_args())
    }

    /// Applies a function to each element of one or more sequences.
    pub fn map<T: Arg>(self, arg: T) -> (q: Query)
        ensures
            q@ == Term::call(TermType::MapEach, arg.terms()),
    {
        Query::call(TermType::MapEach, arg.into_args())
    }

    /// Joins sequences end to end.
    pub fn union<T: Arg>(self, arg: T) -> (q: Query)
        ensures
            q@ == Term::call(TermType::Union, arg.terms()),
    {
        Query::call(TermType::Union, arg.into_args())
    }

    /// Splits a sequence into groups.
    pub fn group<T: Arg>(self, arg: T) -> (q: Query)
        ensures
            q@ == Term::call(TermType::Group, arg.terms()),
    {
        Query::call(TermType::Group, arg.into_args())
    }

    /// Folds a sequence into one value.
    pub fn reduce<T: Arg>(self, arg: T) -> (q: Query)
        ensures
            q@ == Term::call(TermType::Reduce, arg.terms()),
    {
        Query::call(TermType::Reduce, arg.into_args())
    }

    /// Counts the elements of a sequence.
    pub fn count<T: Arg>(self, arg: T) -> (q: Query)
        ensures
            q@ == Term::call(TermType::Count, arg.terms()),
    {
        Query::call(TermType::Count, arg.into_args())
    }

    /// Adds up the elements of a sequence.
    pub fn sum<T: Arg>(self, arg: T) -> (q: Query)
        ensures
            q@ == Term::call(TermType::Sum, arg.terms()),
    {
        Query::call(TermType::Sum, arg.into_args())
    }

    /// Averages the elements of a sequence.
    pub fn avg<T: Arg>(self, arg: T) -> (q: Query)
        ensures
            q@ == Term::call(TermType::Avg, arg.terms()),
    {
        Query::call(TermType::Avg, arg.into_args())
    }

    /// Finds the least element of a sequence.
    pub fn min<T: Arg>(self, arg: T) -> (q: Query)
        ensures
            q@ == Term::call(TermType::Min, arg.terms()),
    {
        Query::call(TermType::Min, arg.into_args())
    }

    /// Finds the greatest element of a sequence.
    pub fn max<T: Arg>(self, arg: T) -> (q: Query)
        ensures
            q@ == Term::call(TermType::Max, arg.terms()),
    {
        Query::call(TermType::Max, arg.into_args())
    }

    /// Removes what occurs twice in a sequence.
    pub fn distinct<T: Arg>(self, arg: T) -> (q: Query)
        ensures
            q@ == Term::call(TermType::Distinct, arg.terms()),
    {
        Query::call(TermType::Distinct, arg.into_args())
    }

    /// Tells whether a sequence holds the given values.
    pub fn contains<T: Arg>(self, arg: T) -> (q: Query)
        ensures
            q@ == Term::call(TermType::Contains, arg.terms()),
    {
        Query::call(TermType::Contains, arg.into_args())
    }

    /// Marks a value to replace, not merge with, what it meets.
    pub fn literal<T: Arg>(self, arg: T) -> (q: Query)
        ensures
            q@ == Term::call(TermType::Literal, arg.terms()),
    {
        Query::call(TermType::Literal, arg.into_args())
    }

    /// Builds an object from keys and values in turn.
    pub fn object<T: Arg>(self, arg: T) -> (q: Query)
        ensures
            q@ == Term::call(TermType::Object, arg.terms()),
    {
        Query::call(TermType::Object, arg.into_args())
    }

    /// Draws a random number.
    pub fn random<T: Arg>(self, arg: T) -> (q: Query)
        ensures
            q@ == Term::call(TermType::Random, arg.terms()),
    {
        Query::call(TermType::Random, arg.into_args())
    }

    /// Rounds a number to the nearest integer.
    pub fn round<T: Arg>(self, arg: T) -> (q: Query)
        ensures
            q@ == Term::call(TermType::Round, arg.terms()),
    {
        Query::call(TermType::Round, arg.into_args())
    }

    /// Rounds a number up.
    pub fn ceil<T: Arg>(self, arg: T) -> (q: Query)
        ensures
            q@ == Term::call(TermType::Ceil, arg.terms()),
    {
        Query::call(TermType::Ceil, arg.into_args())
    }

    /// Rounds a number down.
    pub fn floor<T: Arg>(self, arg: T) -> (q: Query)
        ensures
            q@ == Term::call(TermType::Floor, arg.terms()),
    {
        Query::call(TermType::Floor, arg.into_args())
    }

    /// The time at which the server got the query.
    pub fn now(self) -> (q: Query)
        ensures
            q@ == Term::call(TermType::Now, Seq::empty()),
    {
        Query::new(TermType::Now)
    }

    /// Builds a time from its parts.
    pub fn time<T: Arg>(self, arg: T) -> (q: Query)
        ensures
            q@ == Term::call(TermType::Time, arg.terms()),
    {
        Query::call(TermType::Time, arg.into_args())
    }

    /// Builds a time from seconds since the epoch.
    pub fn epoch_time<T: Arg>(self, arg: T) -> (q: Query)
        ensures
            q@ == Term::call(TermType::EpochTime, arg.terms()),
    {
        Query::call(TermType::EpochTime, arg.into_args())
    }

    /// Builds a time from an ISO 8601 string.
    pub fn iso8601<T: Arg>(self, arg: T) -> (q: Query)
        ensures
            q@ == Term::call(TermType::Iso8601, arg.terms()),
    {
        Query::call(TermType::Iso8601, arg.into_args())
    }

    /// Calls a function on values. The function is given last and sent
    /// first.
    pub fn do_<T: Arg>(self, arg: T) -> (q: Query)
        ensures
            q@ == Term::call(TermType::Funcall, function_first(arg.terms())),
    {
        let mut args = arg.into_args();
        let ghost given = args@;
        match args.pop() {
            Some(function) => {
                args.insert(0, function);
                proof {
                    assert(term_seq(args@) =~= function_first(term_seq(given)));
                }
            },
            None => {},
        }
        Query::call(TermType::Funcall, args)
    }

    /// Chooses between values by a condition.
    pub fn branch<T: Arg>(self, arg: T) -> (q: Query)
        ensures
            q@ == Term::call(TermType::Branch, arg.terms()),
    {
        Query::call(TermType::Branch, arg.into_args())
    }

    /// Yields the integers of a range.
    pub fn range<T: Arg>(self, arg: T) -> (q: Query)
        ensures
            q@ == Term::call(TermType::Range, arg.terms()),
    {
        Query::call(TermType::Range, arg.into_args())
    }

    /// Fails the query with a message.
    pub fn error<T: Arg>(self, arg: T) -> (q: Query)
        ensures
            q@ == Term::call(TermType::Error, arg.terms()),
    {
        Query::call(TermType::Error, arg.into_args())
    }

    /// Makes a term of a value: the term itself where the value stands for
    /// one, an array of the terms where it stands for none or several.
    pub fn expr<T: Arg>(self, arg: T) -> (q: Query)
        ensures
            q@ == expression(arg.terms()),
    {
        let mut args = arg.into_args();
        if args.len() == 1 {
            match args.pop() {
                Some(only) => only,
                None => Query::call(TermType::MakeArray, args),
            }
        } else {
            Query::call(TermType::MakeArray, args)
        }
    }

    /// Evaluates a JavaScript expression on the server.
    pub fn js<T: Arg>(self, arg: T) -> (q: Query)
        ensures
            q@ == Term::call(TermType::Javascript, arg.terms()),
    {
        Query::call(TermType::Javascript, arg.into_args())
    }

    /// Describes a value.
    pub fn info<T: Arg>(self, arg: T) -> (q: Query)
        ensures
            q@ == Term::call(TermType::Info, arg.terms()),
    {
        Query::call(TermType::Info, arg.into_args())
    }

    /// Parses a JSON string on the server.
    pub fn json<T: Arg>(self, arg: T) -> (q: Query)
        ensures
            q@ == Term::call(TermType::Json, arg.terms()),
    {
        Query::call(TermType::Json, arg.into_args())
    }

    /// Fetches data from a URL.
    pub fn http<T: Arg>(self, arg: T) -> (q: Query)
        ensures
            q@ == Term::call(TermType::Http, arg.terms()),
    {
        Query::call(TermType::Http, arg.into_args())
    }

    /// Makes a UUID.
    pub fn uuid<T: Arg>(self, arg: T) -> (q: Query)
        ensures
            q@ == Term::call(TermType::Uuid, arg.terms()),
    {
        Query::call(TermType::Uuid, arg.into_args())
    }

    /// Builds a circle around a point.
    pub fn circle<T: Arg>(self, arg: T) -> (q: Query)
        ensures
            q@ == Term::call(TermType::Circle, arg.terms()),
    {
        Query::call(TermType::Circle, arg.into_args())
    }

    /// Measures the distance between two geometries.
    pub fn distance<T: Arg>(self, arg: T) -> (q: Query)
        ensures
            q@ == Term::call(TermType::Distance, arg.terms()),
    {
        Query::call(TermType::Distance, arg.into_args())
    }

    /// Converts a GeoJSON object to a geometry.
    pub fn geojson<T: Arg>(self, arg: T) -> (q: Query)
        ensures
            q@ == Term::call(TermType::Geojson, arg.terms()),
    {
        Query::call(TermType::Geojson, arg.into_args())
    }

    /// Tells whether two geometries intersect.
    pub fn intersects<T: Arg>(self, arg: T) -> (q: Query)
        ensures
            q@ == Term::call(TermType::Intersects, arg.terms()),
    {
        Query::call(TermType::Intersects, arg.into_args())
    }

    /// Builds a line from points.
    pub fn line<T: Arg>(self, arg: T) -> (q: Query)
        ensures
            q@ == Term::call(TermType::Line, arg.terms()),
    {
        Query::call(TermType::Line, arg.into_args())
    }

    /// Builds a point from longitude and latitude.
    pub fn point<T: Arg>(self, arg: T) -> (q: Query)
        ensures
            q@ == Term::call(TermType::Point, arg.terms()),
    {
        Query::call(TermType::Point, arg.into_args())
    }

    /// Builds a polygon from points.
    pub fn polygon<T: Arg>(self, arg: T) -> (q: Query)
        ensures
            q@ == Term::call(TermType::Polygon, arg.terms()),
    {
        Query::call(TermType::Polygon, arg.into_args())
    }

    /// Grants or denies permissions to a user.
    pub fn grant<T: Arg>(self, arg: T) -> (q: Query)
        ensures
            q@ == Term::call(TermType::Grant, arg.terms()),
    {
        Query::call(TermType::Grant, arg.into_args())
    }

    /// Waits for tables to be ready.
    pub fn wait<T: Arg>(self, arg: T) -> (q: Query)
        ensures
            q@ == Term::call(TermType::Wait, arg.terms()),
    {
        Query::call(TermType::Wait, arg.into_args())
    }
}

} // verus!
