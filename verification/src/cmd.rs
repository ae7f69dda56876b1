//! The commands and what they take.

pub mod close;
pub mod connect;
pub mod run;

use vstd::prelude::*;
use crate::datum::{Datum, Json};
use crate::query::{term_seq, Query, Term};

verus! {

/// What a command accepts as its arguments: a value that stands for a list
/// of terms.
pub trait Arg: Sized {
    /// The terms this value stands for, in order.
    spec fn terms(self) -> Seq<Term>;

    /// Turns this value into the queries it stands for.
    fn into_args(self) -> (args: Vec<Query>)
        ensures
            term_seq(args@) == self.terms(),
    ;
}

/// The single query `q`, as a list.
fn one(q: Query) -> (args: Vec<Query>)
    ensures
        term_seq(args@) == seq![q@],
{
    let mut args: Vec<Query> = Vec::new();
    args.push(q);
    proof {
        assert(term_seq(args@) =~= seq![q@]);
    }
    args
}

impl Arg for () {
    open spec fn terms(self) -> Seq<Term> {
        Seq::empty()
    }

    fn into_args(self) -> (args: Vec<Query>) {
        let args: Vec<Query> = Vec::new();
        proof {
            assert(term_seq(args@) =~= Seq::<Term>::empty());
        }
        args
    }
}

impl Arg for Query {
    open spec fn terms(self) -> Seq<Term> {
        seq![self@]
    }

    fn into_args(self) -> (args: Vec<Query>) {
        one(self)
    }
}

impl Arg for Datum {
    open spec fn terms(self) -> Seq<Term> {
        seq![Term::Datum(self@)]
    }

    fn into_args(self) -> (args: Vec<Query>) {
        one(Query::Datum(self))
    }
}

impl Arg for &str {
    open spec fn terms(self) -> Seq<Term> {
        seq![Term::Datum(Json::String(self@))]
    }

    fn into_args(self) -> (args: Vec<Query>) {
        one(Query::Datum(Datum::text(self)))
    }
}

impl Arg for String {
    open spec fn terms(self) -> Seq<Term> {
        seq![Term::Datum(Json::String(self@))]
    }

    fn into_args(self) -> (args: Vec<Query>) {
        one(Query::Datum(Datum::String(self)))
    }
}

impl Arg for u64 {
    open spec fn terms(self) -> Seq<Term> {
        seq![Term::Datum(Json::UInt(self))]
    }

    fn into_args(self) -> (args: Vec<Query>) {
        one(Query::Datum(Datum::UInt(self)))
    }
}

impl Arg for bool {
    open spec fn terms(self) -> Seq<Term> {
        seq![Term::Datum(Json::Bool(self))]
    }

    fn into_args(self) -> (args: Vec<Query>) {
        one(Query::Datum(Datum::Bool(self)))
    }
}

impl Arg for Vec<Query> {
    open spec fn terms(self) -> Seq<Term> {
        term_seq(self@)
    }

    fn into_args(self) -> (args: Vec<Query>) {
        self
    }
}

impl<A: Arg, B: Arg> Arg for (A, B) {
    open spec fn terms(self) -> Seq<Term> {
        self.0.terms() + self.1.terms()
    }

    fn into_args(self) -> (args: Vec<Query>) {
        let mut args = self.0.into_args();
        let mut more = self.1.into_args();
        let ghost front = args@;
        let ghost back = more@;
        args.append(&mut more);
        proof {
            assert(term_seq(args@) =~= term_seq(front) + term_seq(back));
        }
        args
    }
}

impl<A: Arg, B: Arg, C: Arg> Arg for (A, B, C) {
    open spec fn terms(self) -> Seq<Term> {
        self.0.terms() + self.1.terms() + self.2.terms()
    }

    fn into_args(self) -> (args: Vec<Query>) {
        let mut args = self.0.into_args();
        let mut second = self.1.into_args();
        let mut third = self.2.into_args();
        let ghost a = args@;
        let ghost b = second@;
        let ghost c = third@;
        args.append(&mut second);
        args.append(&mut third);
        proof {
            assert(term_seq(args@) =~= term_seq(a) + term_seq(b) + term_seq(c));
        }
        args
    }
}

} // verus!
