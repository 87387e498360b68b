//! Turning every outcome of a request into a status, headers and a body.

use crate::failure::{canonical_reason, Failure};
use crate::markup::{element_markup, Fragment};
use crate::outbound::PendingCall;
use crate::text::{
    body_text, decimal_text, lemma_encoding_holds_part, no_pairs, occurs_in, pairs_text,
    with_pair,
};
use vstd::prelude::*;
use vstd::utf8::encode_utf8;

verus! {

/// The request that came in.
#[derive(Debug)]
pub struct InboundRequest {
    pub method: String,
    /// The path of the URI, without the query.
    pub path: String,
    pub query: Option<String>,
    pub headers: Vec<(String, String)>,
    pub body: Vec<u8>,
}

/// The response that goes out.
#[derive(Debug)]
pub struct Response {
    pub status: u16,
    pub headers: Vec<(String, String)>,
    pub body: Vec<u8>,
}

/// What differs between the documents of two applications.
#[derive(Debug)]
pub struct Shell {
    /// The source of the picture that stands before every page, if any.
    pub image: Option<String>,
    /// What the body of a failure response begins with.
    pub failure_prefix: String,
}

/// How the handling of a request ended.
#[derive(Debug)]
pub enum Outcome {
    /// A page was rendered.
    Page(Fragment),
    /// No pattern matched the path.
    NotFound,
    /// The page handler failed.
    Failed(Failure),
}

/// Where the handling of a request stands: it waits for a call, or it has
/// ended.
#[derive(Debug)]
pub enum Progress<S> {
    /// The host is to wait for this call and hand its outcome back with the
    /// stage.
    Waiting(PendingCall, S),
    /// Nothing is left to wait for.
    Finished(Outcome),
}

/// What the host is to do next.
#[derive(Debug)]
pub enum Step<S> {
    /// Wait for this call, then resume the stage with its outcome.
    Join(PendingCall, S),
    /// Send this response; the request is done.
    Respond(Response),
}

/// The picture before a page.
pub open spec fn image_markup(image: Option<Seq<char>>) -> Seq<char> {
    match image {
        Some(source) => element_markup(
            "img"@,
            Seq::empty().push(("src"@, source)).push(
                ("style"@, "max-height: 200px; margin-top: 20px; margin-bottom: 20px"@),
            ),
            Seq::empty(),
        ),
        None => Seq::empty(),
    }
}

/// The document around a page: the doctype, a head with the stylesheet, and a
/// body whose one tile holds the picture and the page.
pub open spec fn document_markup(image: Option<Seq<char>>, page: Seq<char>) -> Seq<char> {
    "<!DOCTYPE html>"@ + element_markup(
        "head"@,
        Seq::empty(),
        element_markup(
            "link"@,
            Seq::empty().push(("rel"@, "stylesheet"@)).push(("type"@, "text/css"@)).push(
                ("href"@, "/style.css"@),
            ),
            Seq::empty(),
        ),
    ) + element_markup(
        "body"@,
        Seq::empty(),
        element_markup(
            "div"@,
            Seq::empty().push(("class"@, "fui-tile"@)).push(
                (
                    "style"@,
                    "display: flex;flex-direction: row; align-items: center; margin: 20px;"@,
                ),
            ),
            image_markup(image) + page,
        ),
    )
}

impl Shell {
    /// The source of the picture, as text.
    pub open spec fn image_text(self) -> Option<Seq<char>> {
        match self.image {
            Some(source) => Some(source@),
            None => None,
        }
    }

    /// The document around `page`.
    pub fn document(&self, page: &Fragment) -> (document: Fragment)
        ensures
            document@ == document_markup(self.image_text(), page@),
    {
        let nothing = Fragment::empty();
        let link = Fragment::element(
            "link",
            &with_pair(
                with_pair(with_pair(no_pairs(), "rel", "stylesheet"), "type", "text/css"),
                "href",
                "/style.css",
            ),
            &nothing,
        );
        let head = Fragment::element("head", &no_pairs(), &link);
        let picture = match &self.image {
            Some(source) => Fragment::element(
                "img",
                &with_pair(
                    with_pair(no_pairs(), "src", source.as_str()),
                    "style",
                    "max-height: 200px; margin-top: 20px; margin-bottom: 20px",
                ),
                &nothing,
            ),
            None => Fragment::empty(),
        };
        let tile = Fragment::element(
            "div",
            &with_pair(
                with_pair(no_pairs(), "class", "fui-tile"),
                "style",
                "display: flex;flex-direction: row; align-items: center; margin: 20px;",
            ),
            &picture.followed_by(page),
        );
        let body = Fragment::element("body", &no_pairs(), &tile);
        Fragment::raw("<!DOCTYPE html>".to_owned()).followed_by(&head).followed_by(&body)
    }

    /// The response for a rendered page: status 200, the content type of an
    /// HTML document, and the document around the page as the body.
    pub fn page_response(&self, page: &Fragment) -> (response: Response)
        ensures
            response.status == 200,
            pairs_text(response.headers@) == Seq::empty().push(
                ("content-type"@, "text/html; charset=utf-8"@),
            ),
            response.body@ == encode_utf8(document_markup(self.image_text(), page@)),
    {
        let document = self.document(page);
        Response {
            status: 200,
            headers: with_pair(no_pairs(), "content-type", "text/html; charset=utf-8"),
            body: document.markup.as_str().as_bytes_vec(),
        }
    }

    /// The response for a failure: status 500, and as the body the prefix and
    /// what the failure says, in plain text.
    pub fn failure_response(&self, failure: &Failure) -> (response: Response)
        ensures
            response.status == 500,
            response.headers@.len() == 0,
            response.body@ == encode_utf8(self.failure_prefix@ + failure@.description_text()),
    {
        let mut text = self.failure_prefix.clone();
        text.append(failure.description().as_str());
        Response { status: 500, headers: Vec::new(), body: text.as_str().as_bytes_vec() }
    }

    /// Whether `step` is what the host is to do where the handling stands at
    /// `progress`.
    pub open spec fn settled<S>(self, progress: Progress<S>, step: Step<S>) -> bool {
        match progress {
            Progress::Waiting(call, stage) => step == Step::Join(call, stage),
            Progress::Finished(outcome) => step matches Step::Respond(response)
                && self.translated(outcome, response),
        }
    }

    /// What the host is to do at this point: join where the page waits, and
    /// respond with the translated outcome where it has ended.
    pub fn settle<S>(&self, progress: Progress<S>) -> (step: Step<S>)
        ensures
            self.settled(progress, step),
    {
        match progress {
            Progress::Waiting(call, stage) => Step::Join(call, stage),
            Progress::Finished(outcome) => Step::Respond(self.translate(&outcome)),
        }
    }

    /// Whether `response` is what `outcome` is translated to.
    pub open spec fn translated(self, outcome: Outcome, response: Response) -> bool {
        match outcome {
            Outcome::Page(page) => {
                &&& response.status == 200
                &&& pairs_text(response.headers@) == Seq::empty().push(
                    ("content-type"@, "text/html; charset=utf-8"@),
                )
                &&& response.body@ == encode_utf8(document_markup(self.image_text(), page@))
            },
            Outcome::NotFound => {
                &&& response.status == 404
                &&& response.headers@.len() == 0
                &&& response.body@.len() == 0
            },
            Outcome::Failed(failure) => {
                &&& response.status == 500
                &&& response.headers@.len() == 0
                &&& response.body@ == encode_utf8(
                    self.failure_prefix@ + failure@.description_text(),
                )
            },
        }
    }

    /// Turns an outcome into the response that goes out: a page into a
    /// document with status 200, a path that nothing matched into an empty 404,
    /// a failure into a 500 that says what failed.
    pub fn translate(&self, outcome: &Outcome) -> (response: Response)
        ensures
            self.translated(*outcome, response),
    {
        match outcome {
            Outcome::Page(page) => self.page_response(page),
            Outcome::NotFound => not_found_response(),
            Outcome::Failed(failure) => self.failure_response(failure),
        }
    }
}

/// The response for a path that no pattern matched: status 404, no headers,
/// an empty body.
pub fn not_found_response() -> (response: Response)
    ensures
        response.status == 404,
        response.headers@.len() == 0,
        response.body@.len() == 0,
{
    Response { status: 404, headers: Vec::new(), body: Vec::new() }
}

/// The body of the response for an upstream that answered with an unexpected
/// status holds the status as a decimal numeral, whatever the prefix, the
/// subject and the body of the upstream are.
pub proof fn lemma_failure_body_names_status(
    shell: Shell,
    failure: Failure,
    response: Response,
)
    requires
        failure@ is Upstream,
        shell.translated(Outcome::Failed(failure), response),
    ensures
        response.status == 500,
        occurs_in(encode_utf8(decimal_text(failure@->status as int)), response.body@),
{
    let front = shell.failure_prefix@ + failure@->subject + " returned "@;
    let part = decimal_text(failure@->status as int);
    let back = " "@ + match canonical_reason(failure@->status) {
        Some(phrase) => phrase,
        None => "<unknown status code>"@,
    } + ": "@ + body_text(failure@->body);
    assert(shell.failure_prefix@ + failure@.description_text() =~= front + part + back);
    lemma_encoding_holds_part(front, part, back);
}

} // verus!
