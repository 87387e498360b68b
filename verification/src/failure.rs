//! What can go wrong while a request is handled.

use crate::text::{body_text, decimal_text, occurs_in, push_body_text, push_decimal};
use vstd::prelude::*;

verus! {

/// Why an outbound call gave no response.
#[derive(Clone, Copy, Debug, PartialEq, Eq, Structural)]
pub enum CallError {
    /// The host gave up waiting for the upstream.
    Timeout,
    /// The connection to the upstream failed.
    Transport,
    /// The request could not be sent as it was written.
    Malformed,
    /// The call had been joined before.
    AlreadyJoined,
}

/// Why a page could not be rendered.
#[derive(Debug)]
pub enum Failure {
    /// An outbound call failed.
    Call(CallError),
    /// The upstream answered `subject` with a status other than the expected one.
    Upstream { subject: String, status: u16, body: Vec<u8> },
    /// The upstream's answer could not be decoded; the text is the decoder's.
    Undecodable(String),
    /// The upstream answered with errors of its own; the bytes are its
    /// answer, which holds them.
    ResponseErrors(Vec<u8>),
    /// `holder` lacks the field `name`.
    MissingField { holder: String, name: String },
    /// The field `name` is there and has the wrong shape; `fault` says what it
    /// is not, as the rest of a sentence about it.
    TypeMismatch { name: String, fault: String },
    /// A template matched, and a capture that it declares was not there.
    RouteCapture,
}

/// The reason phrase that `http::StatusCode` has for `status`, where
/// `status` is a status code and has one.
pub uninterp spec fn canonical_reason(status: u16) -> Option<Seq<char>>;

/// Calls `http::StatusCode::from_u16`, which takes the numbers from 100 to
/// 999, and `StatusCode::canonical_reason` on what it gives.
#[verifier::external_body]
fn reason_of(status: u16) -> (reason: Option<&'static str>)
    ensures
        match reason {
            Some(phrase) => canonical_reason(status) == Some(phrase@),
            None => canonical_reason(status) is None,
        },
{
    http::StatusCode::from_u16(status).ok().and_then(|code| code.canonical_reason())
}

/// A status as it is written out: the number, and its reason phrase or a
/// remark that there is none.
pub open spec fn status_text(status: u16) -> Seq<char> {
    decimal_text(status as int) + " "@ + match canonical_reason(status) {
        Some(phrase) => phrase,
        None => "<unknown status code>"@,
    }
}

/// Appends a status as it is written out to `out`.
pub fn push_status(out: &mut String, status: u16)
    ensures
        final(out)@ == old(out)@ + status_text(status),
{
    push_decimal(out, status as i64);
    out.append(" ");
    match reason_of(status) {
        Some(phrase) => out.append(phrase),
        None => out.append("<unknown status code>"),
    }
}

/// A failure, with its texts as sequences of characters.
pub enum FailureText {
    Call(CallError),
    Upstream { subject: Seq<char>, status: u16, body: Seq<u8> },
    Undecodable(Seq<char>),
    ResponseErrors(Seq<u8>),
    MissingField { holder: Seq<char>, name: Seq<char> },
    TypeMismatch { name: Seq<char>, fault: Seq<char> },
    RouteCapture,
}

impl View for Failure {
    type V = FailureText;

    open spec fn view(&self) -> FailureText {
        match self {
            Failure::Call(e) => FailureText::Call(*e),
            Failure::Upstream { subject, status, body } => FailureText::Upstream {
                subject: subject@,
                status: *status,
                body: body@,
            },
            Failure::Undecodable(complaint) => FailureText::Undecodable(complaint@),
            Failure::ResponseErrors(body) => FailureText::ResponseErrors(body@),
            Failure::MissingField { holder, name } => FailureText::MissingField {
                holder: holder@,
                name: name@,
            },
            Failure::TypeMismatch { name, fault } => FailureText::TypeMismatch {
                name: name@,
                fault: fault@,
            },
            Failure::RouteCapture => FailureText::RouteCapture,
        }
    }
}

impl CallError {
    /// What the error says.
    pub open spec fn description_text(self) -> Seq<char> {
        match self {
            CallError::Timeout => "outbound call timed out"@,
            CallError::Transport => "outbound call failed in transport"@,
            CallError::Malformed => "outbound call was malformed"@,
            CallError::AlreadyJoined => "outbound call was joined before"@,
        }
    }

    /// What the error says.
    pub fn description(&self) -> (text: &'static str)
        ensures
            text@ == self.description_text(),
    {
        match self {
            CallError::Timeout => "outbound call timed out",
            CallError::Transport => "outbound call failed in transport",
            CallError::Malformed => "outbound call was malformed",
            CallError::AlreadyJoined => "outbound call was joined before",
        }
    }
}

impl FailureText {
    /// What the failure says, for the one who debugs it.
    pub open spec fn description_text(self) -> Seq<char> {
        match self {
            FailureText::Call(e) => e.description_text(),
            FailureText::Upstream { subject, status, body } => subject + " returned "@
                + status_text(status) + ": "@ + body_text(body),
            FailureText::Undecodable(complaint) => complaint,
            FailureText::ResponseErrors(body) => "GraphQL response errors: "@ + body_text(body),
            FailureText::MissingField { holder, name } => holder + " missing "@ + name,
            FailureText::TypeMismatch { name, fault } => name + " "@ + fault,
            FailureText::RouteCapture => "could not determine a captured parameter"@,
        }
    }
}

impl Failure {
    /// The failure of a holder that lacks a field.
    pub fn missing(holder: &str, name: &str) -> (failure: Failure)
        ensures
            failure@ == (FailureText::MissingField { holder: holder@, name: name@ }),
    {
        Failure::MissingField { holder: holder.to_owned(), name: name.to_owned() }
    }

    /// The failure of a field of the wrong shape.
    pub fn mismatch(name: &str, fault: &str) -> (failure: Failure)
        ensures
            failure@ == (FailureText::TypeMismatch { name: name@, fault: fault@ }),
    {
        Failure::TypeMismatch { name: name.to_owned(), fault: fault.to_owned() }
    }

    /// What the failure says, for the one who debugs it. Nothing in it is
    /// escaped or left out.
    pub fn description(&self) -> (text: String)
        ensures
            text@ == self@.description_text(),
    {
        let mut text = String::new();
        match self {
            Failure::Call(e) => {
                text.append(e.description());
            },
            Failure::Upstream { subject, status, body } => {
                text.append(subject.as_str());
                text.append(" returned ");
                push_status(&mut text, *status);
                text.append(": ");
                push_body_text(&mut text, body.as_slice());
            },
            Failure::Undecodable(complaint) => {
                text.append(complaint.as_str());
            },
            Failure::ResponseErrors(body) => {
                text.append("GraphQL response errors: ");
                push_body_text(&mut text, body.as_slice());
            },
            Failure::MissingField { holder, name } => {
                text.append(holder.as_str());
                text.append(" missing ");
                text.append(name.as_str());
            },
            Failure::TypeMismatch { name, fault } => {
                text.append(name.as_str());
                text.append(" ");
                text.append(fault.as_str());
            },
            Failure::RouteCapture => {
                text.append("could not determine a captured parameter");
            },
        }
        text
    }
}

/// What is said of an upstream that answered with an unexpected status holds
/// the status as a decimal numeral.
pub proof fn lemma_upstream_description_names_status(
    subject: Seq<char>,
    status: u16,
    body: Seq<u8>,
)
    ensures
        occurs_in(
            decimal_text(status as int),
            FailureText::Upstream { subject, status, body }.description_text(),
        ),
{
    let numeral = decimal_text(status as int);
    let front = subject + " returned "@;
    let whole = FailureText::Upstream { subject, status, body }.description_text();
    let at = front.len() as int;
    assert(whole.subrange(at, at + numeral.len()) =~= numeral);
}

} // verus!
