//! Queries: trees of terms, and the JSON they are sent as.
//!
//! A term is a document, or an operation applied to terms, with named
//! options. An operation is sent as `[type, [arguments], {options}]`; the
//! options are left out where there are none.

use vstd::prelude::*;
use crate::datum::{json_members, json_seq, lemma_array_view, lemma_object_view, Datum, Json};
use crate::proto::TermType;

verus! {

/// A query: a tree of terms.
#[derive(Debug, PartialEq, Eq)]
pub enum Query {
    /// A document, handed to the server as it is.
    Datum(Datum),
    /// An operation, its arguments in order, and its options by name.
    Call(TermType, Vec<Query>, Vec<(String, Query)>),
}

/// The mathematical value of a [`Query`].
pub ghost enum Term {
    Datum(Json),
    Call(TermType, Seq<Term>, Seq<(Seq<char>, Term)>),
}

/// The mathematical value of `q`.
pub open spec fn term_of(q: Query) -> Term
    decreases q,
{
    match q {
        Query::Datum(d) => Term::Datum(d@),
        Query::Call(typ, args, opts) => Term::Call(
            typ,
            Seq::new(
                args@.len(),
                |i: int|
                    if 0 <= i < args@.len() {
                        term_of(args@[i])
                    } else {
                        Term::Datum(Json::Null)
                    },
            ),
            Seq::new(
                opts@.len(),
                |i: int|
                    if 0 <= i < opts@.len() {
                        (opts@[i].0@, term_of(opts@[i].1))
                    } else {
                        (Seq::empty(), Term::Datum(Json::Null))
                    },
            ),
        ),
    }
}

impl View for Query {
    type V = Term;

    open spec fn view(&self) -> Term {
        term_of(*self)
    }
}

/// The values of the queries in `qs`, in order.
pub open spec fn term_seq(qs: Seq<Query>) -> Seq<Term> {
    qs.map_values(|q: Query| q@)
}

/// The values of the named queries in `qs`, in order.
pub open spec fn term_members(qs: Seq<(String, Query)>) -> Seq<(Seq<char>, Term)> {
    qs.map_values(|m: (String, Query)| (m.0@, m.1@))
}

/// The document that a term is sent as.
pub open spec fn term_json(t: Term) -> Json
    decreases t,
{
    match t {
        Term::Datum(j) => j,
        Term::Call(typ, args, opts) => {
            let head = seq![
                Json::UInt(typ.spec_code()),
                Json::Array(
                    Seq::new(
                        args.len(),
                        |i: int|
                            if 0 <= i < args.len() {
                                term_json(args[i])
                            } else {
                                Json::Null
                            },
                    ),
                ),
            ];
            if opts.len() == 0 {
                Json::Array(head)
            } else {
                Json::Array(
                    head.push(
                        Json::Object(
                            Seq::new(
                                opts.len(),
                                |i: int|
                                    if 0 <= i < opts.len() {
                                        (opts[i].0, term_json(opts[i].1))
                                    } else {
                                        (Seq::empty(), Json::Null)
                                    },
                            ),
                        ),
                    ),
                )
            }
        },
    }
}

/// A call's value holds the values of its arguments and options.
pub proof fn lemma_call_view(typ: TermType, args: Vec<Query>, opts: Vec<(String, Query)>)
    ensures
        Query::Call(typ, args, opts)@ == Term::Call(typ, term_seq(args@), term_members(opts@)),
{
    let t = Query::Call(typ, args, opts)@;
    assert(t->Call_1 =~= term_seq(args@));
    assert(t->Call_2 =~= term_members(opts@));
}

impl Term {
    /// The term that applies `typ` to `args`, without options.
    pub open spec fn call(typ: TermType, args: Seq<Term>) -> Term {
        Term::Call(typ, args, Seq::empty())
    }

    /// This term with `parent` put before its arguments. A document stays
    /// as it is.
    pub open spec fn with_parent(self, parent: Term) -> Term {
        match self {
            Term::Datum(j) => self,
            Term::Call(typ, args, opts) => Term::Call(typ, seq![parent] + args, opts),
        }
    }

    /// This term with `arg` put behind its arguments. A document stays as
    /// it is.
    pub open spec fn with_arg(self, arg: Term) -> Term {
        match self {
            Term::Datum(j) => self,
            Term::Call(typ, args, opts) => Term::Call(typ, args.push(arg), opts),
        }
    }

    /// This term with the option `name` put behind its options. A document
    /// stays as it is.
    pub open spec fn with_opt(self, name: Seq<char>, value: Term) -> Term {
        match self {
            Term::Datum(j) => self,
            Term::Call(typ, args, opts) => Term::Call(typ, args, opts.push((name, value))),
        }
    }
}

impl Query {
    /// The operation `typ`, applied to nothing.
    pub fn new(typ: TermType) -> (q: Query)
        ensures
            q@ == Term::call(typ, Seq::empty()),
    {
        let args: Vec<Query> = Vec::new();
        let opts: Vec<(String, Query)> = Vec::new();
        proof {
            lemma_call_view(typ, args, opts);
            assert(term_seq(args@) =~= Seq::<Term>::empty());
            assert(term_members(opts@) =~= Seq::<(Seq<char>, Term)>::empty());
        }
        Query::Call(typ, args, opts)
    }

    /// The operation `typ`, applied to `args`.
    pub fn call(typ: TermType, args: Vec<Query>) -> (q: Query)
        ensures
            q@ == Term::call(typ, term_seq(args@)),
    {
        let opts: Vec<(String, Query)> = Vec::new();
        proof {
            lemma_call_view(typ, args, opts);
            assert(term_members(opts@) =~= Seq::<(Seq<char>, Term)>::empty());
        }
        Query::Call(typ, args, opts)
    }

    /// The query that is the document `d`.
    pub fn from_json(d: Datum) -> (q: Query)
        ensures
            q@ == Term::Datum(d@),
    {
        Query::Datum(d)
    }

    /// This query with `parent` as its first argument.
    pub fn with_parent(self, parent: Query) -> (q: Query)
        ensures
            q@ == self@.with_parent(parent@),
    {
        match self {
            Query::Datum(d) => Query::Datum(d),
            Query::Call(typ, mut args, opts) => {
                proof {
                    lemma_call_view(typ, args, opts);
                }
                let ghost before = args@;
                args.insert(0, parent);
                proof {
                    lemma_call_view(typ, args, opts);
                    assert(term_seq(args@) =~= seq![parent@] + term_seq(before));
                }
                Query::Call(typ, args, opts)
            },
        }
    }

    /// This query with `arg` as its last argument.
    pub fn with_arg(self, arg: Query) -> (q: Query)
        ensures
            q@ == self@.with_arg(arg@),
    {
        match self {
            Query::Datum(d) => Query::Datum(d),
            Query::Call(typ, mut args, opts) => {
                proof {
                    lemma_call_view(typ, args, opts);
                }
                let ghost before = args@;
                args.push(arg);
                proof {
                    lemma_call_view(typ, args, opts);
                    assert(term_seq(args@) =~= term_seq(before).push(arg@));
                }
                Query::Call(typ, args, opts)
            },
        }
    }

    /// This query with the option `name` as its last option.
    pub fn with_opt(self, name: &str, value: Query) -> (q: Query)
        ensures
            q@ == self@.with_opt(name@, value@),
    {
        match self {
            Query::Datum(d) => Query::Datum(d),
            Query::Call(typ, args, mut opts) => {
                proof {
                    lemma_call_view(typ, args, opts);
                }
                let ghost before = opts@;
                opts.push((name.to_owned(), value));
                proof {
                    lemma_call_view(typ, args, opts);
                    assert(term_members(opts@) =~= term_members(before).push((name@, value@)));
                }
                Query::Call(typ, args, opts)
            },
        }
    }

    /// The document that this query is sent as.
    pub fn to_datum(&self) -> (d: Datum)
        ensures
            d@ == term_json(self@),
        decreases self,
    {
        match self {
            Query::Datum(d) => d.duplicate(),
            Query::Call(typ, args, opts) => {
                proof {
                    lemma_call_view(*typ, *args, *opts);
                }
                let mut sent: Vec<Datum> = Vec::new();
                let mut i: usize = 0;
                while i < args.len()
                    invariant
                        i <= args@.len(),
                        sent@.len() == i,
                        forall|k: int| 0 <= k < i ==> sent@[k]@ == term_json(args@[k]@),
                        *self == Query::Call(*typ, *args, *opts),
                    decreases args@.len() - i,
                {
                    proof {
                        assert(self->Call_1 == *args);
                        assert(decreases_to!(*self => self->Call_1@[i as int]));
                    }
                    sent.push(args[i].to_datum());
                    i = i + 1;
                }
                let mut named: Vec<(String, Datum)> = Vec::new();
                let mut j: usize = 0;
                while j < opts.len()
                    invariant
                        j <= opts@.len(),
                        named@.len() == j,
                        forall|k: int|
                            0 <= k < j ==> named@[k].0@ == opts@[k].0@ && named@[k].1@
                                == term_json(opts@[k].1@),
                        *self == Query::Call(*typ, *args, *opts),
                    decreases opts@.len() - j,
                {
                    proof {
                        assert(self->Call_2 == *opts);
                        assert(decreases_to!(*self => self->Call_2@[j as int].1));
                    }
                    named.push((opts[j].0.clone(), opts[j].1.to_datum()));
                    j = j + 1;
                }
                let ghost want = term_json(self@);
                let mut items: Vec<Datum> = Vec::new();
                items.push(Datum::UInt(typ.code()));
                proof {
                    lemma_array_view(sent);
                    lemma_object_view(named);
                    assert(json_seq(sent@) =~= want->Array_0[1]->Array_0);
                }
                items.push(Datum::Array(sent));
                if opts.len() > 0 {
                    proof {
                        assert(json_members(named@) =~= want->Array_0[2]->Object_0);
                    }
                    items.push(Datum::Object(named));
                }
                proof {
                    lemma_array_view(items);
                    assert(json_seq(items@) =~= want->Array_0);
                }
                Datum::Array(items)
            },
        }
    }
}

} // verus!
