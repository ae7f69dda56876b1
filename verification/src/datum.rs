//! JSON documents as the driver holds them, and their way to and from text.

use vstd::prelude::*;
use serde_json::Value;
use crate::err::{Driver, ErrorKind, ReqlError};

verus! {

/// `serde_json::Value`: a JSON value as the parser and the writer know it.
/// Nothing is seen inside it; documents pass through it on their way to and
/// from text.
#[verifier::external_type_specification]
#[verifier::external_body]
pub struct ExValue(serde_json::Value);

/// `serde_json::Number`: a JSON number, carried as it is.
#[verifier::external_type_specification]
#[verifier::external_body]
pub struct ExNumber(serde_json::Number);

/// `serde_json::Error`: why the parser or the writer failed.
#[verifier::external_type_specification]
#[verifier::external_body]
pub struct ExJsonError(serde_json::Error);

/// `Clone` of `serde_json::Number`, which is derived there: the copy equals
/// the number it was made from.
pub assume_specification[ <serde_json::Number as Clone>::clone ](n: &serde_json::Number) -> (copy:
    serde_json::Number)
    ensures
        copy == *n,
;

/// A JSON document.
///
/// In a document that was read from text, a number that is a non-negative
/// integer below 2^64 is held as [`Datum::UInt`]; every other number is
/// carried as the parser produced it.
/// An object keeps its members in order; a lookup finds the first member
/// with the key. Written as JSON, an object's members stand in the order of
/// their keys, and of two members with one key the later is written.
#[derive(Debug, PartialEq, Eq)]
pub enum Datum {
    Null,
    Bool(bool),
    UInt(u64),
    Number(serde_json::Number),
    String(String),
    Array(Vec<Datum>),
    Object(Vec<(String, Datum)>),
}

/// The mathematical value of a [`Datum`].
pub ghost enum Json {
    Null,
    Bool(bool),
    UInt(u64),
    Number(serde_json::Number),
    String(Seq<char>),
    Array(Seq<Json>),
    Object(Seq<(Seq<char>, Json)>),
}

/// The mathematical value of `d`.
pub open spec fn json_of(d: Datum) -> Json
    decreases d,
{
    match d {
        Datum::Null => Json::Null,
        Datum::Bool(b) => Json::Bool(b),
        Datum::UInt(n) => Json::UInt(n),
        Datum::Number(n) => Json::Number(n),
        Datum::String(s) => Json::String(s@),
        Datum::Array(items) => Json::Array(
            Seq::new(
                items@.len(),
                |i: int|
                    if 0 <= i < items@.len() {
                        json_of(items@[i])
                    } else {
                        Json::Null
                    },
            ),
        ),
        Datum::Object(members) => Json::Object(
            Seq::new(
                members@.len(),
                |i: int|
                    if 0 <= i < members@.len() {
                        (members@[i].0@, json_of(members@[i].1))
                    } else {
                        (Seq::empty(), Json::Null)
                    },
            ),
        ),
    }
}

impl View for Datum {
    type V = Json;

    open spec fn view(&self) -> Json {
        json_of(*self)
    }
}

/// The values of the documents in `items`, in order.
pub open spec fn json_seq(items: Seq<Datum>) -> Seq<Json> {
    items.map_values(|d: Datum| d@)
}

/// The values of the members in `members`, in order.
pub open spec fn json_members(members: Seq<(String, Datum)>) -> Seq<(Seq<char>, Json)> {
    members.map_values(|m: (String, Datum)| (m.0@, m.1@))
}

/// An array's value holds the values of its elements.
pub proof fn lemma_array_view(items: Vec<Datum>)
    ensures
        Datum::Array(items)@ == Json::Array(json_seq(items@)),
{
    assert(Datum::Array(items)@->Array_0 =~= json_seq(items@));
}

/// An object's value holds the keys and values of its members.
pub proof fn lemma_object_view(members: Vec<(String, Datum)>)
    ensures
        Datum::Object(members)@ == Json::Object(json_members(members@)),
{
    assert(Datum::Object(members)@->Object_0 =~= json_members(members@));
}

/// The value of the first member of `members` whose key is `key`.
pub open spec fn member(members: Seq<(Seq<char>, Json)>, key: Seq<char>) -> Option<Json>
    decreases members.len(),
{
    if members.len() == 0 {
        None
    } else if members[0].0 == key {
        Some(members[0].1)
    } else {
        member(members.drop_first(), key)
    }
}

/// Where the first member of `members` with the key `key` stands; the
/// length of `members` where none has it.
pub open spec fn position(members: Seq<(Seq<char>, Json)>, key: Seq<char>) -> int
    decreases members.len(),
{
    if members.len() == 0 {
        0
    } else if members[0].0 == key {
        0
    } else {
        1 + position(members.drop_first(), key)
    }
}

/// The first member with a key stands where no earlier member has the key.
pub proof fn lemma_position(members: Seq<(Seq<char>, Json)>, at: int, key: Seq<char>)
    requires
        0 <= at <= members.len(),
        at < members.len() ==> members[at].0 == key,
        forall|k: int| 0 <= k < at ==> (#[trigger] members[k]).0 != key,
    ensures
        position(members, key) == at,
    decreases members.len(),
{
    if at > 0 {
        assert(members[0].0 != key);
        assert forall|k: int| 0 <= k < at - 1 implies (#[trigger] members.drop_first()[k]).0
            != key by {
            assert(members.drop_first()[k] == members[k + 1]);
        }
        if at < members.len() {
            assert(members.drop_first()[at - 1] == members[at]);
        }
        lemma_position(members.drop_first(), at - 1, key);
    }
}

/// Taking out a member leaves the first member of every other key as it
/// was.
pub proof fn lemma_member_after_remove(members: Seq<(Seq<char>, Json)>, at: int, key: Seq<char>)
    requires
        0 <= at < members.len(),
        members[at].0 != key,
    ensures
        member(members.remove(at), key) == member(members, key),
    decreases members.len(),
{
    if at == 0 {
        assert(members.remove(0) =~= members.drop_first());
    } else {
        assert(members.remove(at)[0] == members[0]);
        assert(members.remove(at).drop_first() =~= members.drop_first().remove(at - 1));
        if members[0].0 != key {
            lemma_member_after_remove(members.drop_first(), at - 1, key);
        }
    }
}

/// A key that no member has is not found.
pub proof fn lemma_member_absent(members: Seq<(Seq<char>, Json)>, key: Seq<char>)
    requires
        forall|k: int| 0 <= k < members.len() ==> (#[trigger] members[k]).0 != key,
    ensures
        member(members, key) is None,
    decreases members.len(),
{
    if members.len() > 0 {
        assert(members[0].0 != key);
        assert forall|k: int| 0 <= k < members.drop_first().len() implies (
        #[trigger] members.drop_first()[k]).0 != key by {
            assert(members.drop_first()[k] == members[k + 1]);
        }
        lemma_member_absent(members.drop_first(), key);
    }
}

/// The first member with a key is found, whatever follows it.
pub proof fn lemma_member_found(members: Seq<(Seq<char>, Json)>, at: int, key: Seq<char>)
    requires
        0 <= at < members.len(),
        members[at].0 == key,
        forall|k: int| 0 <= k < at ==> (#[trigger] members[k]).0 != key,
    ensures
        member(members, key) == Some(members[at].1),
    decreases members.len(),
{
    if at > 0 {
        assert(members[0].0 != key);
        assert forall|k: int| 0 <= k < at - 1 implies (#[trigger] members.drop_first()[k]).0
            != key by {
            assert(members.drop_first()[k] == members[k + 1]);
        }
        assert(members.drop_first()[at - 1] == members[at]);
        lemma_member_found(members.drop_first(), at - 1, key);
    }
}

impl Json {
    /// The member `key` of this document, where it is an object that has
    /// one.
    pub open spec fn get(self, key: Seq<char>) -> Option<Json> {
        match self {
            Json::Object(members) => member(members, key),
            _ => None,
        }
    }

    /// The number this document is, where it is a non-negative integer
    /// below 2^64.
    pub open spec fn as_u64(self) -> Option<u64> {
        match self {
            Json::UInt(n) => Some(n),
            _ => None,
        }
    }

    /// The text this document is, where it is a string.
    pub open spec fn as_text(self) -> Option<Seq<char>> {
        match self {
            Json::String(s) => Some(s),
            _ => None,
        }
    }

    /// The truth value this document is, where it is one.
    pub open spec fn as_bool(self) -> Option<bool> {
        match self {
            Json::Bool(b) => Some(b),
            _ => None,
        }
    }

    /// The elements of this document, where it is an array.
    pub open spec fn as_array(self) -> Option<Seq<Json>> {
        match self {
            Json::Array(items) => Some(items),
            _ => None,
        }
    }
}

/// The value of a document that may be absent.
pub open spec fn opt_json(d: Option<Datum>) -> Option<Json> {
    match d {
        Some(d) => Some(d@),
        None => None,
    }
}

/// The `serde_json` value that a document is converted to before it is
/// written.
pub uninterp spec fn value_of_json(j: Json) -> serde_json::Value;

/// The bytes that `serde_json` writes for a value; `None` where it refuses
/// to write the value.
pub uninterp spec fn value_text(v: serde_json::Value) -> Option<Seq<u8>>;

/// The value that `serde_json` reads from `bytes`; `None` where it refuses
/// them.
pub uninterp spec fn text_value(bytes: Seq<u8>) -> Option<serde_json::Value>;

/// The document that a `serde_json` value is converted to after it was
/// read, every number carried as it is.
pub uninterp spec fn json_of_value(v: serde_json::Value) -> Json;

/// The number that a JSON number is, where it is a non-negative integer
/// below 2^64.
pub uninterp spec fn number_u64(n: serde_json::Number) -> Option<u64>;

/// The document with every number that is a non-negative integer below
/// 2^64 held as such, throughout.
pub open spec fn settled(j: Json) -> Json
    decreases j,
{
    match j {
        Json::Number(n) => match number_u64(n) {
            Some(k) => Json::UInt(k),
            None => j,
        },
        Json::Array(items) => Json::Array(
            Seq::new(
                items.len(),
                |i: int|
                    if 0 <= i < items.len() {
                        settled(items[i])
                    } else {
                        Json::Null
                    },
            ),
        ),
        Json::Object(members) => Json::Object(
            Seq::new(
                members.len(),
                |i: int|
                    if 0 <= i < members.len() {
                        (members[i].0, settled(members[i].1))
                    } else {
                        (Seq::empty(), Json::Null)
                    },
            ),
        ),
        _ => j,
    }
}

/// Whether the JSON writer writes a document.
pub open spec fn json_writes(j: Json) -> bool {
    value_text(value_of_json(j)) is Some
}

/// The JSON text of a document; empty where the writer refuses the
/// document.
pub open spec fn json_text(j: Json) -> Seq<u8> {
    match value_text(value_of_json(j)) {
        Some(bytes) => bytes,
        None => Seq::empty(),
    }
}

/// The document that `bytes` are the JSON text of, its whole numbers held
/// as such; `None` where they are no JSON text.
pub open spec fn json_parsed(bytes: Seq<u8>) -> Option<Json> {
    match text_value(bytes) {
        Some(v) => Some(settled(json_of_value(v))),
        None => None,
    }
}

/// Converts a document to a `serde_json::Value`, node for node. The result
/// is a function of the document's value, which the contract names; where
/// an object has a key twice, `serde_json`'s map keeps the later member.
#[verifier::external_body]
fn value_of_datum(d: &Datum) -> (v: Value)
    ensures
        v == value_of_json(d@),
{
    match d {
        Datum::Null => Value::Null,
        Datum::Bool(b) => Value::Bool(*b),
        Datum::UInt(n) => Value::from(*n),
        Datum::Number(n) => Value::Number(n.clone()),
        Datum::String(s) => Value::String(s.clone()),
        Datum::Array(a) => Value::Array(a.iter().map(value_of_datum).collect()),
        Datum::Object(o) => Value::Object(
            o.iter().map(|m| (m.0.clone(), value_of_datum(&m.1))).collect(),
        ),
    }
}

/// Converts a `serde_json::Value` to a document, node for node; every
/// number is carried as it is. The result is a function of the value, which
/// the contract names.
#[verifier::external_body]
fn datum_of_value(v: &Value) -> (d: Datum)
    ensures
        d@ == json_of_value(*v),
{
    match v {
        Value::Null => Datum::Null,
        Value::Bool(b) => Datum::Bool(*b),
        Value::Number(n) => Datum::Number(n.clone()),
        Value::String(s) => Datum::String(s.clone()),
        Value::Array(a) => Datum::Array(a.iter().map(datum_of_value).collect()),
        Value::Object(o) => Datum::Object(
            o.iter().map(|m| (m.0.clone(), datum_of_value(m.1))).collect(),
        ),
    }
}

/// `Number::as_u64`: the number, where it is a non-negative integer below
/// 2^64, which the contract names.
#[verifier::external_body]
fn number_as_u64(n: &serde_json::Number) -> (k: Option<u64>)
    ensures
        k == number_u64(*n),
{
    n.as_u64()
}

/// `serde_json::to_vec` on a value: whether it succeeds, and the bytes it
/// then gives, are decided by the value alone, which the contract names.
#[verifier::external_body]
fn value_to_vec(v: &Value) -> (r: Result<Vec<u8>, serde_json::Error>)
    ensures
        match r {
            Ok(bytes) => value_text(*v) == Some(bytes@),
            Err(_) => value_text(*v) is None,
        },
{
    serde_json::to_vec(v)
}

/// `serde_json::from_slice` for a value: it succeeds exactly on the bytes
/// that `serde_json` reads as one JSON value, and gives that value.
#[verifier::external_body]
fn value_from_slice(bytes: &[u8]) -> (r: Result<Value, serde_json::Error>)
    ensures
        match r {
            Ok(v) => text_value(bytes@) == Some(v),
            Err(_) => text_value(bytes@) is None,
        },
{
    serde_json::from_slice::<Value>(bytes)
}

/// The text of `serde_json::Error`'s `Display`; nothing is claimed of it.
#[verifier::external_body]
fn json_error_text(e: &serde_json::Error) -> (s: String) {
    e.to_string()
}

/// Takes the first member with the key `key` out of `members`, if there is
/// one, and leaves the others in order.
pub fn take_member(members: &mut Vec<(String, Datum)>, key: &str) -> (r: Option<Datum>)
    ensures
        match r {
            Some(d) => {
                let at = position(json_members(old(members)@), key@);
                &&& member(json_members(old(members)@), key@) == Some(d@)
                &&& 0 <= at < old(members)@.len()
                &&& d == old(members)@[at].1
                &&& final(members)@ == old(members)@.remove(at)
            },
            None => member(json_members(old(members)@), key@) is None && final(members)@ == old(
                members,
            )@,
        },
        forall|other: Seq<char>|
            other != key@ ==> member(json_members(final(members)@), other) == member(
                json_members(old(members)@),
                other,
            ),
{
    let wanted = key.to_owned();
    let ghost all = json_members(members@);
    let mut i: usize = 0;
    while i < members.len()
        invariant
            i <= members@.len(),
            wanted@ == key@,
            members@ == old(members)@,
            all == json_members(members@),
            forall|k: int| 0 <= k < i ==> (#[trigger] all[k]).0 != key@,
        decreases members@.len() - i,
    {
        if members[i].0 == wanted {
            let found = members.remove(i);
            proof {
                assert(all[i as int] == (found.0@, found.1@));
                lemma_member_found(all, i as int, key@);
                lemma_position(all, i as int, key@);
                assert(json_members(members@) =~= all.remove(i as int));
                assert forall|other: Seq<char>| other != key@ implies member(
                    json_members(members@),
                    other,
                ) == member(all, other) by {
                    lemma_member_after_remove(all, i as int, other);
                }
            }
            return Some(found.1);
        }
        proof {
            assert(all[i as int].0 == members@[i as int].0@);
        }
        i = i + 1;
    }
    proof {
        lemma_member_absent(all, key@);
    }
    None
}

/// The driver's error for a failure of `serde_json`.
pub(crate) fn json_error(e: &serde_json::Error) -> (r: ReqlError)
    ensures
        r@.kind == ErrorKind::Json,
        r@.code is None,
{
    ReqlError::Driver(Driver::Json(json_error_text(e)))
}

impl Datum {
    /// A document that is the text `s`.
    pub fn text(s: &str) -> (d: Datum)
        ensures
            d@ == Json::String(s@),
    {
        Datum::String(s.to_owned())
    }

    /// A copy of this document.
    pub fn duplicate(&self) -> (d: Datum)
        ensures
            d@ == self@,
        decreases self,
    {
        match self {
            Datum::Null => Datum::Null,
            Datum::Bool(b) => Datum::Bool(*b),
            Datum::UInt(n) => Datum::UInt(*n),
            Datum::Number(n) => Datum::Number(n.clone()),
            Datum::String(s) => Datum::String(s.clone()),
            Datum::Array(items) => {
                let mut copies: Vec<Datum> = Vec::new();
                let mut i: usize = 0;
                while i < items.len()
                    invariant
                        i <= items@.len(),
                        copies@.len() == i,
                        forall|k: int| 0 <= k < i ==> copies@[k]@ == items@[k]@,
                        *self == Datum::Array(*items),
                    decreases items@.len() - i,
                {
                    proof {
                        assert(self->Array_0 == *items);
                        assert(decreases_to!(*self => self->Array_0@[i as int]));
                    }
                    copies.push(items[i].duplicate());
                    i = i + 1;
                }
                proof {
                    lemma_array_view(copies);
                    lemma_array_view(*items);
                    assert(json_seq(copies@) =~= json_seq(items@));
                }
                Datum::Array(copies)
            },
            Datum::Object(members) => {
                let mut copies: Vec<(String, Datum)> = Vec::new();
                let mut i: usize = 0;
                while i < members.len()
                    invariant
                        i <= members@.len(),
                        copies@.len() == i,
                        forall|k: int|
                            0 <= k < i ==> copies@[k].0@ == members@[k].0@ && copies@[k].1@
                                == members@[k].1@,
                        *self == Datum::Object(*members),
                    decreases members@.len() - i,
                {
                    proof {
                        assert(self->Object_0 == *members);
                        assert(decreases_to!(*self => self->Object_0@[i as int].1));
                    }
                    copies.push((members[i].0.clone(), members[i].1.duplicate()));
                    i = i + 1;
                }
                proof {
                    lemma_object_view(copies);
                    lemma_object_view(*members);
                    assert(json_members(copies@) =~= json_members(members@));
                }
                Datum::Object(copies)
            },
        }
    }

    /// A copy of this document in which every number that is a
    /// non-negative integer below 2^64 is held as such.
    pub fn settle(&self) -> (d: Datum)
        ensures
            d@ == settled(self@),
        decreases self,
    {
        match self {
            Datum::Null => Datum::Null,
            Datum::Bool(b) => Datum::Bool(*b),
            Datum::UInt(n) => Datum::UInt(*n),
            Datum::Number(n) => match number_as_u64(n) {
                Some(k) => Datum::UInt(k),
                None => Datum::Number(n.clone()),
            },
            Datum::String(s) => Datum::String(s.clone()),
            Datum::Array(items) => {
                let mut copies: Vec<Datum> = Vec::new();
                let mut i: usize = 0;
                while i < items.len()
                    invariant
                        i <= items@.len(),
                        copies@.len() == i,
                        forall|k: int| 0 <= k < i ==> copies@[k]@ == settled(items@[k]@),
                        *self == Datum::Array(*items),
                    decreases items@.len() - i,
                {
                    proof {
                        assert(self->Array_0 == *items);
                        assert(decreases_to!(*self => self->Array_0@[i as int]));
                    }
                    copies.push(items[i].settle());
                    i = i + 1;
                }
                proof {
                    lemma_array_view(copies);
                    lemma_array_view(*items);
                    assert(json_seq(copies@) =~= settled(self@)->Array_0);
                }
                Datum::Array(copies)
            },
            Datum::Object(members) => {
                let mut copies: Vec<(String, Datum)> = Vec::new();
                let mut i: usize = 0;
                while i < members.len()
                    invariant
                        i <= members@.len(),
                        copies@.len() == i,
                        forall|k: int|
                            0 <= k < i ==> copies@[k].0@ == members@[k].0@ && copies@[k].1@
                                == settled(members@[k].1@),
                        *self == Datum::Object(*members),
                    decreases members@.len() - i,
                {
                    proof {
                        assert(self->Object_0 == *members);
                        assert(decreases_to!(*self => self->Object_0@[i as int].1));
                    }
                    copies.push((members[i].0.clone(), members[i].1.settle()));
                    i = i + 1;
                }
                proof {
                    lemma_object_view(copies);
                    lemma_object_view(*members);
                    assert(json_members(copies@) =~= settled(self@)->Object_0);
                }
                Datum::Object(copies)
            },
        }
    }

    /// Writes this document as JSON text.
    ///
    /// It succeeds exactly where the JSON writer writes the document, and
    /// then gives the document's JSON text; where the writer refuses, the
    /// error is of kind `Json`.
    pub fn to_bytes(&self) -> (r: Result<Vec<u8>, ReqlError>)
        ensures
            match r {
                Ok(bytes) => json_writes(self@) && bytes@ == json_text(self@),
                Err(e) => !json_writes(self@) && e@.kind == ErrorKind::Json && e@.code is None,
            },
    {
        let value = value_of_datum(self);
        match value_to_vec(&value) {
            Ok(bytes) => Ok(bytes),
            Err(e) => Err(json_error(&e)),
        }
    }

    /// Reads a document from JSON text.
    pub fn parse(bytes: &[u8]) -> (r: Result<Datum, ReqlError>)
        ensures
            match json_parsed(bytes@) {
                Some(j) => r matches Ok(d) && d@ == j,
                None => r matches Err(e) && e@.kind == ErrorKind::Json,
            },
    {
        match value_from_slice(bytes) {
            Ok(value) => Ok(datum_of_value(&value).settle()),
            Err(e) => Err(json_error(&e)),
        }
    }

    /// The member `key` of this document, where it is an object that has
    /// one: the first, if it has several.
    pub fn get(&self, key: &str) -> (r: Option<&Datum>)
        ensures
            match r {
                Some(d) => self@.get(key@) == Some(d@),
                None => self@.get(key@) is None,
            },
    {
        match self {
            Datum::Object(members) => {
                let wanted = key.to_owned();
                let ghost all = self@->Object_0;
                let mut i: usize = 0;
                proof {
                    assert(all.skip(0) =~= all);
                }
                while i < members.len()
                    invariant
                        i <= members@.len(),
                        wanted@ == key@,
                        self@ == Json::Object(all),
                        all.len() == members@.len(),
                        forall|k: int|
                            0 <= k < members@.len() ==> all[k] == (
                                members@[k].0@,
                                (#[trigger] members@[k]).1@,
                            ),
                        member(all, key@) == member(all.skip(i as int), key@),
                    decreases members@.len() - i,
                {
                    proof {
                        let rest = all.skip(i as int);
                        assert(rest[0] == all[i as int]);
                        assert(all[i as int] == (members@[i as int].0@, members@[i as int].1@));
                        assert(rest.drop_first() =~= all.skip(i + 1));
                    }
                    if members[i].0 == wanted {
                        return Some(&members[i].1);
                    }
                    i = i + 1;
                }
                None
            },
            _ => None,
        }
    }

    /// The number this document is, where it is a non-negative integer
    /// below 2^64.
    pub fn as_u64(&self) -> (r: Option<u64>)
        ensures
            r == self@.as_u64(),
    {
        match self {
            Datum::UInt(n) => Some(*n),
            _ => None,
        }
    }

    /// The text this document is, where it is a string.
    pub fn as_str(&self) -> (r: Option<&str>)
        ensures
            match r {
                Some(s) => self@.as_text() == Some(s@),
                None => self@.as_text() is None,
            },
    {
        match self {
            Datum::String(s) => Some(s.as_str()),
            _ => None,
        }
    }

    /// The truth value this document is, where it is one.
    pub fn as_bool(&self) -> (r: Option<bool>)
        ensures
            r == self@.as_bool(),
    {
        match self {
            Datum::Bool(b) => Some(*b),
            _ => None,
        }
    }

    /// The elements of this document, where it is an array.
    pub fn as_array(&self) -> (r: Option<&Vec<Datum>>)
        ensures
            match r {
                Some(items) => self@.as_array() == Some(json_seq(items@)),
                None => self@.as_array() is None,
            },
    {
        match self {
            Datum::Array(items) => {
                proof {
                    assert(self@->Array_0 =~= json_seq(items@));
                }
                Some(items)
            },
            _ => None,
        }
    }

    /// The elements of this document, where it is an array; the document is
    /// used up.
    pub fn into_array(self) -> (r: Option<Vec<Datum>>)
        ensures
            match r {
                Some(items) => self@.as_array() == Some(json_seq(items@)),
                None => self@.as_array() is None,
            },
    {
        match self {
            Datum::Array(items) => {
                proof {
                    assert(self@->Array_0 =~= json_seq(items@));
                }
                Some(items)
            },
            _ => None,
        }
    }
}

} // verus!
