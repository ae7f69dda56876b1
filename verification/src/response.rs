//! What the server answers: one JSON object per frame.
//!
//! ```text
//! {"t": kind, "r": [results], "n": [notes], "e": error class, "b": backtrace, "p": profile}
//! ```

use vstd::prelude::*;
use crate::datum::{
    json_parsed, json_seq, lemma_array_view, lemma_object_view, opt_json, take_member, Datum, Json,
};
use crate::err::{response_error, response_error_kind, Driver, ErrorKind, Fault, ReqlError};
use crate::proto::{ErrorType, ResponseNote, ResponseType};

verus! {

/// One answer of the server to one query.
#[derive(Debug, PartialEq, Eq)]
pub struct Response {
    /// What kind of answer this is.
    pub kind: ResponseType,
    /// The documents it brings.
    pub results: Vec<Datum>,
    /// The server's remarks; each announces a change feed.
    pub notes: Vec<ResponseNote>,
    /// The class of the runtime error, where the server named one.
    pub class: Option<ErrorType>,
    /// Where in the query the error arose.
    pub backtrace: Option<Datum>,
    /// The query's profile, where one was asked for.
    pub profile: Option<Datum>,
}

/// The notes among `items`, in order: every element that is the code of a
/// note; the others are passed over.
pub open spec fn notes_of(items: Seq<Json>) -> Seq<ResponseNote>
    decreases items.len(),
{
    if items.len() == 0 {
        Seq::empty()
    } else {
        let before = notes_of(items.drop_last());
        match items.last() {
            Json::UInt(code) => match ResponseNote::spec_from_code(code) {
                Some(note) => before.push(note),
                None => before,
            },
            _ => before,
        }
    }
}

/// The kind of response that the document announces under `"t"`.
pub open spec fn response_kind(j: Json) -> Option<ResponseType> {
    match j.get("t"@) {
        Some(Json::UInt(code)) => ResponseType::spec_from_code(code),
        _ => None,
    }
}

/// The results that the document brings under `"r"`; none where it has no
/// such member.
pub open spec fn response_results(j: Json) -> Seq<Json> {
    match j.get("r"@) {
        Some(Json::Array(items)) => items,
        _ => Seq::empty(),
    }
}

/// The notes that the document brings under `"n"`.
pub open spec fn response_notes(j: Json) -> Seq<ResponseNote> {
    match j.get("n"@) {
        Some(Json::Array(items)) => notes_of(items),
        _ => Seq::empty(),
    }
}

/// The error class that the document names under `"e"`.
pub open spec fn response_class(j: Json) -> Option<ErrorType> {
    match j.get("e"@) {
        Some(Json::UInt(code)) => ErrorType::spec_from_code(code),
        _ => None,
    }
}

/// What is wrong with a document that is no response, in words; `None`
/// for a response. A response is an object that names a known kind under
/// `"t"` and holds arrays under `"r"` and `"n"`, where it has them.
pub open spec fn malformation(j: Json) -> Option<Seq<char>> {
    if !(j is Object) {
        Some("response is not an object"@)
    } else if !(j.get("t"@) is Some && j.get("t"@)->0 is UInt) {
        Some("response without a type"@)
    } else if response_kind(j) is None {
        Some("response of an unknown type"@)
    } else if j.get("r"@) is Some && !(j.get("r"@)->0 is Array) {
        Some("results are not an array"@)
    } else if j.get("n"@) is Some && !(j.get("n"@)->0 is Array) {
        Some("notes are not an array"@)
    } else {
        None
    }
}

/// Whether the document is a response.
pub open spec fn is_response(j: Json) -> bool {
    malformation(j) is None
}

/// The text that a failed response carries: its first result, where that
/// is a string.
pub open spec fn error_text(results: Seq<Json>) -> Seq<char> {
    if results.len() > 0 && results[0] is String {
        results[0]->String_0
    } else {
        Seq::empty()
    }
}

/// Whether `response` is what the document `j` says.
pub open spec fn says(j: Json, response: Response) -> bool {
    &&& is_response(j)
    &&& Some(response.kind) == response_kind(j)
    &&& json_seq(response.results@) == response_results(j)
    &&& response.notes@ == response_notes(j)
    &&& response.class == response_class(j)
    &&& opt_json(response.backtrace) == j.get("b"@)
    &&& opt_json(response.profile) == j.get("p"@)
}

/// Whether `read` is what reading the payload `payload` gives: the
/// response that its document says, or an error of kind `Json` that tells
/// what is wrong with the document, where it is one.
pub open spec fn reads_as(payload: Seq<u8>, read: Result<Response, ReqlError>) -> bool {
    match read {
        Ok(response) => json_parsed(payload) matches Some(j) && says(j, response),
        Err(e) => {
            &&& e@.kind == ErrorKind::Json
            &&& e@.code is None
            &&& json_parsed(payload) matches Some(j) ==> malformation(j) == Some(e@.message)
        },
    }
}

fn malformed(what: &str) -> (e: ReqlError)
    ensures
        e@ == Fault::new(ErrorKind::Json, what@),
{
    ReqlError::Driver(Driver::Json(what.to_owned()))
}

proof fn lemma_keys_differ()
    ensures
        "t"@ != "r"@,
        "t"@ != "n"@,
        "t"@ != "e"@,
        "t"@ != "b"@,
        "t"@ != "p"@,
        "r"@ != "n"@,
        "r"@ != "e"@,
        "r"@ != "b"@,
        "r"@ != "p"@,
        "n"@ != "e"@,
        "n"@ != "b"@,
        "n"@ != "p"@,
        "e"@ != "b"@,
        "e"@ != "p"@,
        "b"@ != "p"@,
{
    reveal_strlit("t");
    reveal_strlit("r");
    reveal_strlit("n");
    reveal_strlit("e");
    reveal_strlit("b");
    reveal_strlit("p");
    assert("t"@[0] == 't');
    assert("r"@[0] == 'r');
    assert("n"@[0] == 'n');
    assert("e"@[0] == 'e');
    assert("b"@[0] == 'b');
    assert("p"@[0] == 'p');
}

/// Picks the notes out of the elements of `"n"`.
fn collect_notes(items: &Vec<Datum>) -> (notes: Vec<ResponseNote>)
    ensures
        notes@ == notes_of(json_seq(items@)),
{
    let mut notes: Vec<ResponseNote> = Vec::new();
    let ghost all = json_seq(items@);
    let mut i: usize = 0;
    proof {
        assert(all.take(0) =~= Seq::<Json>::empty());
    }
    while i < items.len()
        invariant
            i <= items@.len(),
            all == json_seq(items@),
            notes@ == notes_of(all.take(i as int)),
        decreases items@.len() - i,
    {
        proof {
            assert(all.take(i + 1).drop_last() =~= all.take(i as int));
            assert(all.take(i + 1).last() == items@[i as int]@);
        }
        match &items[i] {
            Datum::UInt(code) => match ResponseNote::from_code(*code) {
                Some(note) => {
                    notes.push(note);
                },
                None => {},
            },
            _ => {},
        }
        i = i + 1;
    }
    proof {
        assert(all.take(items@.len() as int) =~= all);
    }
    notes
}

impl Response {
    /// Reads a response out of the document that a frame's payload held.
    ///
    /// The document is a response exactly if [`is_response`] holds of it;
    /// any other is refused as malformed.
    pub fn from_datum(d: Datum) -> (r: Result<Response, ReqlError>)
        ensures
            match r {
                Ok(response) => says(d@, response),
                Err(e) => malformation(d@) matches Some(what) && e@ == Fault::new(
                    ErrorKind::Json,
                    what,
                ),
            },
    {
        let mut members = match d {
            Datum::Object(members) => members,
            _ => {
                return Err(malformed("response is not an object"));
            },
        };
        proof {
            lemma_object_view(members);
            lemma_keys_differ();
        }
        let kind = match take_member(&mut members, "t") {
            Some(Datum::UInt(code)) => match ResponseType::from_code(code) {
                Some(kind) => kind,
                None => {
                    return Err(malformed("response of an unknown type"));
                },
            },
            _ => {
                return Err(malformed("response without a type"));
            },
        };
        let results = match take_member(&mut members, "r") {
            None => Vec::new(),
            Some(Datum::Array(items)) => {
                proof {
                    lemma_array_view(items);
                }
                items
            },
            Some(_) => {
                return Err(malformed("results are not an array"));
            },
        };
        proof {
            assert(json_seq(Seq::<Datum>::empty()) =~= Seq::<Json>::empty());
        }
        let notes = match take_member(&mut members, "n") {
            None => Vec::new(),
            Some(Datum::Array(items)) => {
                proof {
                    lemma_array_view(items);
                }
                collect_notes(&items)
            },
            Some(_) => {
                return Err(malformed("notes are not an array"));
            },
        };
        let class = match take_member(&mut members, "e") {
            Some(Datum::UInt(code)) => ErrorType::from_code(code),
            _ => None,
        };
        let backtrace = take_member(&mut members, "b");
        let profile = take_member(&mut members, "p");
        Ok(Response { kind, results, notes, class, backtrace, profile })
    }

    /// Reads a response from the payload of a frame.
    ///
    /// The payload must be JSON text and the document a response; else the
    /// error is of kind `Json`.
    pub fn parse(payload: &[u8]) -> (r: Result<Response, ReqlError>)
        ensures
            reads_as(payload@, r),
            r is Ok <==> (json_parsed(payload@) matches Some(j) && is_response(j)),
    {
        match Datum::parse(payload) {
            Ok(d) => Response::from_datum(d),
            Err(e) => Err(e),
        }
    }

    /// Whether one of the notes announces a change feed. Every note the
    /// protocol knows does.
    pub fn is_feed(&self) -> (b: bool)
        ensures
            b == (self.notes@.len() > 0),
    {
        self.notes.len() > 0
    }

    /// The fault that this response reports, if it reports one.
    pub open spec fn fault(&self) -> Option<Fault> {
        if self.kind.spec_is_error() {
            Some(
                Fault::new(
                    response_error_kind(self.kind, self.class),
                    error_text(json_seq(self.results@)),
                ),
            )
        } else {
            None
        }
    }

    /// The error that this response reports, if it reports one.
    pub fn error(&self) -> (r: Option<ReqlError>)
        ensures
            match r {
                Some(e) => e is Runtime && self.fault() == Some(e@),
                None => self.fault() is None,
            },
    {
        if !self.kind.is_error() {
            return None;
        }
        let message = if self.results.len() > 0 {
            match &self.results[0] {
                Datum::String(s) => s.clone(),
                _ => String::new(),
            }
        } else {
            String::new()
        };
        Some(response_error(self.kind, self.class, message))
    }
}

} // verus!
