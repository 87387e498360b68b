//! The smallest handler: it greets, whatever is asked.

use crate::translate::{InboundRequest, Response};
use vstd::prelude::*;
use vstd::utf8::encode_utf8;

verus! {

/// Answers every request with status 200 and the greeting as the body.
pub fn user_entrypoint(_req: &InboundRequest) -> (response: Response)
    ensures
        response.status == 200,
        response.headers@.len() == 0,
        response.body@ == encode_utf8("Hello, world!"@),
{
    Response { status: 200, headers: Vec::new(), body: "Hello, world!".as_bytes_vec() }
}

} // verus!
