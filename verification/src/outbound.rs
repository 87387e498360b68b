//! Outbound calls: requests that a page hands to the host without waiting,
//! and the responses that it joins on later.

use crate::failure::CallError;
use crate::text::pairs_text;
use vstd::prelude::*;

verus! {

/// A request to an upstream, as the page wrote it.
#[derive(Debug)]
pub struct OutboundRequest {
    pub method: String,
    pub uri: String,
    pub headers: Vec<(String, String)>,
    pub body: Vec<u8>,
}

/// What a request or a response says, as text and bytes.
pub struct MessageText {
    pub line: Seq<char>,
    pub target: Seq<char>,
    pub headers: Seq<(Seq<char>, Seq<char>)>,
    pub body: Seq<u8>,
}

impl View for OutboundRequest {
    type V = MessageText;

    /// The method is the line, the URI the target.
    open spec fn view(&self) -> MessageText {
        MessageText {
            line: self.method@,
            target: self.uri@,
            headers: pairs_text(self.headers@),
            body: self.body@,
        }
    }
}

/// The response that an upstream gave.
#[derive(Debug)]
pub struct OutboundResponse {
    pub status: u16,
    pub headers: Vec<(String, String)>,
    pub body: Vec<u8>,
}

/// A call that was issued and may still be joined.
#[derive(Clone, Copy, Debug, PartialEq, Eq, Structural)]
pub struct PendingCall {
    /// The place of the call among those that its board issued.
    pub id: usize,
}

/// Whether `http::Method::from_bytes` accepts the bytes of `method`.
pub uninterp spec fn method_accepted(method: Seq<char>) -> bool;

/// Whether `http::Uri` parses from `uri`.
pub uninterp spec fn uri_accepted(uri: Seq<char>) -> bool;

/// Whether `method` is `GET` or `POST`.
pub open spec fn is_common_method(method: Seq<char>) -> bool {
    method == "GET"@ || method == "POST"@
}

/// Calls `http::Method::from_bytes`, which accepts `GET` and `POST` among the
/// methods it knows by name, and refuses the empty method and any byte that
/// is no token character.
#[verifier::external_body]
fn accepts_method(method: &str) -> (ok: bool)
    ensures
        ok == method_accepted(method@),
        ok ==> method@.len() > 0,
        is_common_method(method@) ==> ok,
{
    http::Method::from_bytes(method.as_bytes()).is_ok()
}

/// Calls `http::Uri`'s `from_str`, which refuses the empty string, one that is
/// too long, and one that is no URI.
#[verifier::external_body]
fn accepts_uri(uri: &str) -> (ok: bool)
    ensures
        ok == uri_accepted(uri@),
        ok ==> uri@.len() > 0,
{
    uri.parse::<http::Uri>().is_ok()
}

impl OutboundRequest {
    /// Whether the request can be sent: its method is one and its target is a
    /// URI.
    pub open spec fn well_formed(self) -> bool {
        method_accepted(self.method@) && uri_accepted(self.uri@)
    }

    /// Checks the method and the target.
    pub fn is_well_formed(&self) -> (ok: bool)
        ensures
            ok == self.well_formed(),
            ok ==> self.method@.len() > 0 && self.uri@.len() > 0,
            is_common_method(self.method@) ==> ok == uri_accepted(self.uri@),
    {
        accepts_method(self.method.as_str()) && accepts_uri(self.uri.as_str())
    }
}

/// The calls of one invocation: every request issued so far, in the order of
/// issue, and the calls joined so far, in the order of joining.
#[derive(Debug)]
pub struct CallBoard {
    pub issued: Vec<OutboundRequest>,
    pub joined: Vec<usize>,
}

impl CallBoard {
    /// Whether `call` was issued by this board.
    pub open spec fn knows(self, call: PendingCall) -> bool {
        call.id < self.issued.len()
    }

    /// Whether `call` has been joined.
    pub open spec fn has_joined(self, call: PendingCall) -> bool {
        self.joined@.contains(call.id)
    }

    /// Whether `call` was issued and not joined yet.
    pub open spec fn is_pending(self, call: PendingCall) -> bool {
        self.knows(call) && !self.has_joined(call)
    }

    /// What joining `call` with `outcome` yields: the outcome for a pending
    /// call, `AlreadyJoined` for a call joined before, `Malformed` for a handle
    /// that this board never issued.
    pub open spec fn join_result(
        self,
        call: PendingCall,
        outcome: Result<OutboundResponse, CallError>,
    ) -> Result<OutboundResponse, CallError> {
        if self.has_joined(call) {
            Err(CallError::AlreadyJoined)
        } else if !self.knows(call) {
            Err(CallError::Malformed)
        } else {
            outcome
        }
    }

    /// The requests issued so far, as text.
    pub open spec fn issued_text(self) -> Seq<MessageText> {
        Seq::new(self.issued@.len(), |i: int| self.issued[i]@)
    }

    /// A board with no calls.
    pub fn new() -> (board: CallBoard)
        ensures
            board.issued@.len() == 0,
            board.joined@.len() == 0,
    {
        CallBoard { issued: Vec::new(), joined: Vec::new() }
    }

    /// Records `request` as issued where `well_formed` says that it can be
    /// sent, and refuses it as malformed where not. The handle counts the calls
    /// issued before.
    pub fn register(&mut self, request: OutboundRequest, well_formed: bool) -> (r: Result<
        PendingCall,
        CallError,
    >)
        ensures
            final(self).joined == old(self).joined,
            well_formed ==> r == Ok::<PendingCall, CallError>(
                PendingCall { id: old(self).issued.len() },
            ) && final(self).issued@ == old(self).issued@.push(request),
            !well_formed ==> r == Err::<PendingCall, CallError>(CallError::Malformed) && final(self).issued == old(self).issued,
    {
        if well_formed {
            let id = self.issued.len();
            self.issued.push(request);
            Ok(PendingCall { id })
        } else {
            Err(CallError::Malformed)
        }
    }

    /// Issues `request` without waiting for anything: checks that it is
    /// well-formed and records it for the host to send. Fails on a malformed
    /// request and on nothing else; the new call is pending. With `GET` or
    /// `POST` as the method, the target alone decides.
    pub fn issue(&mut self, request: OutboundRequest) -> (r: Result<PendingCall, CallError>)
        ensures
            final(self).joined == old(self).joined,
            request.well_formed() ==> r == Ok::<PendingCall, CallError>(
                PendingCall { id: old(self).issued.len() },
            ) && final(self).issued@ == old(self).issued@.push(request),
            !request.well_formed() ==> r == Err::<PendingCall, CallError>(CallError::Malformed)
                && final(self).issued == old(self).issued,
            is_common_method(request.method@) ==> request.well_formed() == uri_accepted(
                request.uri@,
            ),
    {
        let ok = request.is_well_formed();
        self.register(request, ok)
    }

    /// Whether `call` has been joined.
    pub fn joined_already(&self, call: PendingCall) -> (yes: bool)
        ensures
            yes == self.has_joined(call),
    {
        let mut i: usize = 0;
        while i < self.joined.len()
            invariant
                0 <= i <= self.joined.len(),
                forall|j: int| 0 <= j < i ==> self.joined[j] != call.id,
            decreases self.joined.len() - i,
        {
            if self.joined[i] == call.id {
                return true;
            }
            i += 1;
        }
        false
    }

    /// Joins `call` with the `outcome` that the host waited for. A pending call
    /// becomes joined and yields the outcome as it is. A call joined before
    /// yields `AlreadyJoined`, and a handle that this board never issued
    /// `Malformed`; neither changes the board.
    pub fn join(&mut self, call: PendingCall, outcome: Result<OutboundResponse, CallError>) -> (r:
        Result<OutboundResponse, CallError>)
        ensures
            final(self).issued == old(self).issued,
            !final(self).is_pending(call),
            r == old(self).join_result(call, outcome),
            old(self).is_pending(call) ==> final(self).joined@ == old(self).joined@.push(call.id),
            !old(self).is_pending(call) ==> final(self).joined == old(self).joined,
    {
        if self.joined_already(call) {
            Err(CallError::AlreadyJoined)
        } else if call.id >= self.issued.len() {
            Err(CallError::Malformed)
        } else {
            self.joined.push(call.id);
            assert(self.joined@.last() == call.id);
            outcome
        }
    }
}

} // verus!
