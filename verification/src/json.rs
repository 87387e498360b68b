//! Structured data that an upstream sent: a tree of named and typed fields.

use crate::failure::Failure;
use serde_json::Value;
use vstd::prelude::*;

verus! {

/// `serde_json::Value`, a document as the decoder holds it; it is read
/// through `lift` only.
#[verifier::external_type_specification]
#[verifier::external_body]
pub struct ExValue(Value);

/// `serde_json::Error`, why bytes were refused; it is read through
/// `complaint` only.
#[verifier::external_type_specification]
#[verifier::external_body]
pub struct ExDecodeError(serde_json::Error);

/// A decoded document.
#[derive(Debug)]
pub enum Json {
    Null,
    Bool(bool),
    /// A number, as the decimal numeral that the decoder writes for it.
    Number(String),
    Text(String),
    Array(Vec<Json>),
    /// The members of an object, each with its name.
    Object(Vec<(String, Json)>),
}

/// What `serde_json::from_slice` makes of `bytes`: the document that it
/// reads, or its complaint.
pub uninterp spec fn decoded(bytes: Seq<u8>) -> Result<Json, Seq<char>>;

/// What a `serde_json::Error` says when it is written out.
pub uninterp spec fn complaint_of(error: serde_json::Error) -> Seq<char>;

/// What a `serde_json::Value` holds: its variant and what is in it, a number
/// as `Number`'s `to_string` writes it, the items of an array in order, the
/// members of an object in the order in which its map hands them out, which
/// is the order in which the document first names them.
pub uninterp spec fn document_of(value: Value) -> Json;

/// Calls `serde_json::from_slice` for a `Value`: the value that it reads from
/// the bytes, or the error that it refuses them with.
#[verifier::external_body]
fn parse(bytes: &[u8]) -> (r: Result<Value, serde_json::Error>)
    ensures
        match r {
            Ok(value) => decoded(bytes@) == Ok::<Json, Seq<char>>(document_of(value)),
            Err(error) => decoded(bytes@) == Err::<Json, Seq<char>>(complaint_of(error)),
        },
{
    serde_json::from_slice(bytes)
}

/// Tells the variants of a `serde_json::Value` apart and moves what each
/// holds into the same variant of a document.
#[verifier::external_body]
fn lift(value: Value) -> (document: Json)
    ensures
        document == document_of(value),
{
    match value {
        Value::Null => Json::Null,
        Value::Bool(b) => Json::Bool(b),
        Value::Number(n) => Json::Number(n.to_string()),
        Value::String(s) => Json::Text(s),
        Value::Array(items) => Json::Array(items.into_iter().map(lift).collect()),
        Value::Object(members) => Json::Object(
            members.into_iter().map(|(name, member)| (name, lift(member))).collect(),
        ),
    }
}

/// Calls `to_string` on a `serde_json::Error`: what went wrong, and where.
#[verifier::external_body]
fn complaint(error: &serde_json::Error) -> (text: String)
    ensures
        text@ == complaint_of(*error),
{
    error.to_string()
}

/// The first member called `name` among `members`.
pub open spec fn first_named(members: Seq<(String, Json)>, name: Seq<char>) -> Option<Json>
    decreases members.len(),
{
    if members.len() == 0 {
        None
    } else if members.first().0@ == name {
        Some(members.first().1)
    } else {
        first_named(members.drop_first(), name)
    }
}

impl Json {
    /// The member called `name`, where this is an object that has one.
    pub open spec fn member(self, name: Seq<char>) -> Option<Json> {
        match self {
            Json::Object(members) => first_named(members@, name),
            _ => None,
        }
    }

    /// The text, where this is text.
    pub open spec fn text(self) -> Option<Seq<char>> {
        match self {
            Json::Text(s) => Some(s@),
            _ => None,
        }
    }

    /// The numeral, where this is a number.
    pub open spec fn numeral(self) -> Option<Seq<char>> {
        match self {
            Json::Number(s) => Some(s@),
            _ => None,
        }
    }

    /// Decodes `bytes`. Fails exactly where the decoder reads no document from
    /// them, with the decoder's complaint.
    pub fn decode(bytes: &[u8]) -> (r: Result<Json, Failure>)
        ensures
            match decoded(bytes@) {
                Ok(document) => r == Ok::<Json, Failure>(document),
                Err(complaint) => r matches Err(Failure::Undecodable(text)) && text@
                    == complaint,
            },
    {
        match parse(bytes) {
            Ok(value) => Ok(lift(value)),
            Err(error) => Err(Failure::Undecodable(complaint(&error))),
        }
    }

    /// The member called `name`: the first one, where several have the name;
    /// none where this is no object or has no such member.
    pub fn get(&self, name: &str) -> (r: Option<&Json>)
        ensures
            match self.member(name@) {
                Some(member) => r == Some(&member),
                None => r is None,
            },
    {
        match self {
            Json::Object(members) => {
                let mut i: usize = 0;
                proof {
                    assert(members@.subrange(0, members.len() as int) =~= members@);
                }
                while i < members.len()
                    invariant
                        0 <= i <= members.len(),
                        self.member(name@) == first_named(
                            members@.subrange(i as int, members.len() as int),
                            name@,
                        ),
                    decreases members.len() - i,
                {
                    proof {
                        let rest = members@.subrange(i as int, members.len() as int);
                        assert(rest.drop_first() =~= members@.subrange(
                            i + 1,
                            members.len() as int,
                        ));
                    }
                    if members[i].0.as_str().eq(name) {
                        return Some(&members[i].1);
                    }
                    i += 1;
                }
                None
            },
            _ => None,
        }
    }

    /// The text, where this is text.
    pub fn as_text(&self) -> (r: Option<&str>)
        ensures
            match self.text() {
                Some(text) => r matches Some(s) && s@ == text,
                None => r is None,
            },
    {
        match self {
            Json::Text(s) => Some(s.as_str()),
            _ => None,
        }
    }

    /// The numeral, where this is a number.
    pub fn as_numeral(&self) -> (r: Option<&str>)
        ensures
            match self.numeral() {
                Some(text) => r matches Some(s) && s@ == text,
                None => r is None,
            },
    {
        match self {
            Json::Number(s) => Some(s.as_str()),
            _ => None,
        }
    }
}

} // verus!
