//! Request handlers for a sandboxed guest. A handler takes one request and
//! gives one response; on its way it may call an upstream API, several times
//! at once, and render what came back as HTML.
//!
//! The library never waits. A page issues its calls on a
//! [`outbound::CallBoard`] and says which call it joins next; the host sends
//! the requests, waits, and hands the outcome back:
//!
//! 1. `enter` routes the request by its path ([`router`]), issues every call
//!    of the page and returns a [`translate::Step`].
//! 2. For `Step::Join` the host waits for that call and hands its outcome to
//!    `proceed`, which returns the next step.
//! 3. `Step::Respond` holds the response: a document around the page, an empty
//!    404, or a 500 that says what failed ([`translate`], [`failure`]).
//!
//! [`weather`] and [`github`] are two applications built this way, [`hello`]
//! is one that calls nothing.

pub mod escape;
pub mod failure;
pub mod github;
pub mod hello;
pub mod json;
pub mod markup;
pub mod numeral;
pub mod outbound;
pub mod router;
pub mod temperature;
pub mod text;
pub mod translate;
pub mod weather;
