//! What a client says in one frame: a JSON array that starts with the kind
//! of query.
//!
//! ```text
//! START         [1, term, options]
//! CONTINUE      [2]
//! STOP          [3]   or   [3, null, {"noreply": false}]
//! NOREPLY_WAIT  [4]
//! SERVER_INFO   [5]
//! ```

use vstd::prelude::*;
use crate::datum::{
    json_text, json_writes, lemma_array_view, lemma_object_view, opt_json, Datum, Json,
};
use crate::err::{ErrorKind, Fault, ReqlError};
use crate::frame::{encode_frame, frame_bytes, too_large};
use crate::proto::QueryType;

verus! {

/// The document that a query of kind `kind` is sent as: the kind's number,
/// then the term and the options where there are any. Options without a term
/// stand behind `null`.
pub open spec fn payload_json(kind: QueryType, term: Option<Json>, options: Option<Json>) -> Json {
    let head = seq![Json::UInt(kind.spec_code())];
    match (term, options) {
        (None, None) => Json::Array(head),
        (Some(t), None) => Json::Array(head.push(t)),
        (None, Some(o)) => Json::Array(head.push(Json::Null).push(o)),
        (Some(t), Some(o)) => Json::Array(head.push(t).push(o)),
    }
}

/// The options that ask the server to answer a `STOP`: `{"noreply": false}`.
pub open spec fn reply_wanted() -> Json {
    Json::Object(seq![("noreply"@, Json::Bool(false))])
}

/// The document that stops a query: bare, or with the wish for an answer
/// once earlier writes are through.
pub open spec fn stop_json(wait: bool) -> Json {
    if wait {
        payload_json(QueryType::Stop, None, Some(reply_wanted()))
    } else {
        payload_json(QueryType::Stop, None, None)
    }
}

/// Builds the document that a query is sent as.
pub fn payload(kind: QueryType, term: Option<Datum>, options: Option<Datum>) -> (d: Datum)
    ensures
        d@ == payload_json(kind, opt_json(term), opt_json(options)),
{
    let mut items: Vec<Datum> = Vec::new();
    items.push(Datum::UInt(kind.code()));
    match (term, options) {
        (None, None) => {},
        (Some(t), None) => {
            items.push(t);
        },
        (None, Some(o)) => {
            items.push(Datum::Null);
            items.push(o);
        },
        (Some(t), Some(o)) => {
            items.push(t);
            items.push(o);
        },
    }
    proof {
        lemma_array_view(items);
        assert(Datum::Array(items)@->Array_0 =~= payload_json(
            kind,
            opt_json(term),
            opt_json(options),
        )->Array_0);
    }
    Datum::Array(items)
}

/// Builds the document that stops a query.
pub fn stop_payload(wait: bool) -> (d: Datum)
    ensures
        d@ == stop_json(wait),
{
    if wait {
        let mut members: Vec<(String, Datum)> = Vec::new();
        members.push(("noreply".to_owned(), Datum::Bool(false)));
        proof {
            lemma_object_view(members);
            assert(Datum::Object(members)@->Object_0 =~= reply_wanted()->Object_0);
        }
        payload(QueryType::Stop, None, Some(Datum::Object(members)))
    } else {
        payload(QueryType::Stop, None, None)
    }
}

/// Whether a document can be sent in a frame: the JSON writer writes it,
/// and the length of its text fits the frame's header.
pub open spec fn frames(document: Json) -> bool {
    json_writes(document) && json_text(document).len() <= u32::MAX
}

/// Whether `fault` is the fault of a document that cannot be sent in a
/// frame: of kind `Json` where the writer refuses the document, else that
/// of a payload too large.
pub open spec fn unframed(document: Json, fault: Fault) -> bool {
    &&& !frames(document)
    &&& if json_writes(document) {
        fault == too_large()
    } else {
        fault.kind == ErrorKind::Json && fault.code is None
    }
}

/// Writes a document as the payload of a frame for `token`.
///
/// It succeeds exactly where the document can be sent in a frame, as
/// [`frames`] says.
pub fn frame_for(token: u64, document: &Datum) -> (r: Result<Vec<u8>, ReqlError>)
    ensures
        match r {
            Ok(bytes) => frames(document@) && bytes@ == frame_bytes(
                token,
                json_text(document@),
            ),
            Err(e) => unframed(document@, e@),
        },
{
    match document.to_bytes() {
        Ok(text) => encode_frame(token, text.as_slice()),
        Err(e) => Err(e),
    }
}

} // verus!
