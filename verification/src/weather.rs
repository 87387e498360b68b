//! Pages that show weather observations of the weather.gov JSON API.

use crate::escape::{
    encode_minimal, encoded, escaped, is_inert, lemma_decimal_is_inert, lemma_encoded_is_inert,
    lemma_inert_concat,
};
use crate::failure::{CallError, Failure, FailureText};
use crate::json::{decoded, Json};
use crate::markup::{element_markup, Fragment};
use crate::outbound::{
    uri_accepted, CallBoard, MessageText, OutboundRequest, OutboundResponse, PendingCall,
};
use crate::router::{params_text, regex_accepts, regex_source, Matching, Pattern, Router};
use crate::temperature::{fahrenheit_units, reading, whole_degrees, Temperature};
use crate::failure::lemma_upstream_description_names_status;
use crate::text::{
    decimal_text, lowercased, no_pairs, occurs_in,
    push_decimal, with_pair,
};
use crate::translate::{InboundRequest, Outcome, Progress, Shell, Step};
use vstd::prelude::*;

verus! {

/// A request to the weather API that has been issued.
#[derive(Debug)]
pub struct WeatherRequest {
    /// A friendly name of the place.
    pub location: String,
    /// The call to join on.
    pub pending: PendingCall,
}

/// An observation of the weather, built from what the API answered.
#[derive(Debug)]
pub struct WeatherObservation {
    /// Where the station is.
    pub location: String,
    /// What the weather is like, in lowercase.
    pub description: String,
    /// The temperature in degrees Celsius.
    pub celsius: Temperature,
}

/// An observation, with its texts as sequences of characters and its
/// temperature in units.
pub struct ObservationText {
    pub location: Seq<char>,
    pub description: Seq<char>,
    pub celsius: int,
}

impl View for WeatherObservation {
    type V = ObservationText;

    open spec fn view(&self) -> ObservationText {
        ObservationText {
            location: self.location@,
            description: self.description@,
            celsius: self.celsius.units(),
        }
    }
}

/// The request for the latest observation of the station `station`.
pub open spec fn observation_request(station: Seq<char>) -> MessageText {
    MessageText {
        line: "GET"@,
        target: "https://api.weather.gov/stations/"@ + station + "/observations/latest"@,
        headers: Seq::empty().push(("accept"@, "application/ld+json"@)),
        body: Seq::empty(),
    }
}

/// Whether the request for `station` can be sent: its method always can, so
/// its target decides.
pub open spec fn station_accepted(station: Seq<char>) -> bool {
    uri_accepted(observation_request(station).target)
}

/// What a document of the API says of the weather at `location`: the text
/// description in lowercase and the value of the temperature, or the first
/// field that is missing or has the wrong shape. A value that is a number
/// and cannot be read as a temperature counts as no number.
pub open spec fn observation_of(location: Seq<char>, document: Json) -> Result<
    ObservationText,
    FailureText,
> {
    match document.member("textDescription"@) {
        None => Err(FailureText::MissingField { holder: "weather"@, name: "textDescription"@ }),
        Some(described) => match described.text() {
            None => Err(FailureText::TypeMismatch { name: "textDescription"@, fault: "was not str"@ }),
            Some(text) => match document.member("temperature"@) {
                None => Err(FailureText::MissingField { holder: "weather"@, name: "temperature"@ }),
                Some(temperature) => match temperature.member("value"@) {
                    None => Err(FailureText::MissingField { holder: "temperature"@, name: "value"@ }),
                    Some(value) => match value.numeral() {
                        None => Err(
                            FailureText::TypeMismatch {
                                name: "temperature value"@,
                                fault: "is not a number"@,
                            },
                        ),
                        Some(numeral) => match reading(numeral) {
                            None => Err(
                            FailureText::TypeMismatch {
                                name: "temperature value"@,
                                fault: "is not a number"@,
                            },
                        ),
                            Some(units) => Ok(
                                ObservationText {
                                    location,
                                    description: lowercased(text),
                                    celsius: units,
                                },
                            ),
                        },
                    },
                },
            },
        },
    }
}

/// What an answer with this status and body says of the weather at
/// `location`: status 200 is the only success, and its body is a document.
pub open spec fn answered(location: Seq<char>, status: u16, body: Seq<u8>) -> Result<
    ObservationText,
    FailureText,
> {
    if status == 200 {
        match decoded(body) {
            Ok(document) => observation_of(location, document),
            Err(complaint) => Err(FailureText::Undecodable(complaint)),
        }
    } else {
        Err(FailureText::Upstream { subject: "weather request for "@ + location, status, body })
    }
}

/// What a joined call says of the weather at `location`.
pub open spec fn observed(location: Seq<char>, joined: Result<OutboundResponse, CallError>) -> Result<
    ObservationText,
    FailureText,
> {
    match joined {
        Ok(response) => answered(location, response.status, response.body@),
        Err(error) => Err(FailureText::Call(error)),
    }
}

/// An observation or a failure, as text.
pub open spec fn reading_text(r: Result<WeatherObservation, Failure>) -> Result<
    ObservationText,
    FailureText,
> {
    match r {
        Ok(observation) => Ok(observation@),
        Err(failure) => Err(failure@),
    }
}

/// The sentence that describes an observation; both texts are entity-encoded,
/// both temperatures are whole degrees.
pub open spec fn description_text(observation: ObservationText) -> Seq<char> {
    "The weather in "@ + encoded(observation.location) + " is currently "@ + encoded(
        observation.description,
    ) + " and "@ + decimal_text(whole_degrees(fahrenheit_units(observation.celsius)))
        + "&deg;F ("@ + decimal_text(whole_degrees(observation.celsius)) + "&deg;C)"@
}

impl WeatherRequest {
    /// Issues the request for the latest observation of the station
    /// `station_code`; `location` is a friendly name of the place. Nothing is
    /// waited for. Fails, with nothing issued, exactly where the request
    /// cannot be sent as it is.
    pub fn new(location: &str, station_code: &str, board: &mut CallBoard) -> (r: Result<
        WeatherRequest,
        Failure,
    >)
        ensures
            final(board).joined == old(board).joined,
            match r {
                Ok(request) => {
                    &&& station_accepted(station_code@)
                    &&& request.location@ == location@
                    &&& request.pending.id == old(board).issued.len()
                    &&& final(board).issued@.len() == old(board).issued@.len() + 1
                    &&& final(board).issued@.drop_last() == old(board).issued@
                    &&& final(board).issued@.last()@ == observation_request(station_code@)
                },
                Err(failure) => {
                    &&& !station_accepted(station_code@)
                    &&& failure == Failure::Call(CallError::Malformed)
                    &&& final(board).issued == old(board).issued
                },
            },
    {
        let mut uri = "https://api.weather.gov/stations/".to_owned();
        uri.append(station_code);
        uri.append("/observations/latest");
        let request = OutboundRequest {
            method: "GET".to_owned(),
            uri,
            headers: with_pair(no_pairs(), "accept", "application/ld+json"),
            body: Vec::new(),
        };
        match board.issue(request) {
            Ok(pending) => {
                Ok(WeatherRequest { location: location.to_owned(), pending })
            },
            Err(error) => Err(Failure::Call(error)),
        }
    }

    /// Takes the outcome of the call that the host waited for, and reads the
    /// observation out of it. The call is joined on the board. A failed call
    /// fails; a status other than 200 fails with the status and the body; a
    /// body that is no document, or lacks a field, fails.
    pub fn get_response(
        self,
        outcome: Result<OutboundResponse, CallError>,
        board: &mut CallBoard,
    ) -> (r: Result<WeatherObservation, Failure>)
        ensures
            final(board).issued == old(board).issued,
            !final(board).is_pending(self.pending),
            old(board).is_pending(self.pending) ==> final(board).joined@ == old(board).joined@.push(self.pending.id),
            !old(board).is_pending(self.pending) ==> final(board).joined == old(board).joined,
            reading_text(r) == observed(
                self.location@,
                old(board).join_result(self.pending, outcome),
            ),
    {
        let response = match board.join(self.pending, outcome) {
            Ok(response) => response,
            Err(error) => {
                return Err(Failure::Call(error));
            },
        };
        if response.status == 200 {
            WeatherObservation::new(self.location, response)
        } else {
            let mut subject = "weather request for ".to_owned();
            subject.append(self.location.as_str());
            Err(Failure::Upstream { subject, status: response.status, body: response.body })
        }
    }
}

impl WeatherObservation {
    /// Builds an observation from an answer of the API; the answer does not
    /// name the place, so `location` does. Fails where the body is no
    /// document, and where the document lacks a field or has one of the wrong
    /// shape.
    pub fn new(location: String, response: OutboundResponse) -> (r: Result<Self, Failure>)
        ensures
            reading_text(r) == answered(location@, 200, response.body@),
    {
        match Json::decode(response.body.as_slice()) {
            Ok(document) => WeatherObservation::from_document(location, &document),
            Err(failure) => Err(failure),
        }
    }

    /// Builds an observation from a decoded document: `textDescription` must
    /// be text and is kept in lowercase, `temperature` must have a `value` that
    /// is a number.
    pub fn from_document(location: String, document: &Json) -> (r: Result<Self, Failure>)
        ensures
            reading_text(r) == observation_of(location@, *document),
    {
        let description = match document.get("textDescription") {
            None => {
                return Err(Failure::missing("weather", "textDescription"));
            },
            Some(described) => match described.as_text() {
                None => {
                    return Err(Failure::mismatch("textDescription", "was not str"));
                },
                Some(text) => text.to_lowercase(),
            },
        };
        let temperature = match document.get("temperature") {
            None => {
                return Err(Failure::missing("weather", "temperature"));
            },
            Some(temperature) => temperature,
        };
        let numeral = match temperature.get("value") {
            None => {
                return Err(Failure::missing("temperature", "value"));
            },
            Some(value) => match value.as_numeral() {
                None => {
                    return Err(Failure::mismatch("temperature value", "is not a number"));
                },
                Some(numeral) => numeral,
            },
        };
        match Temperature::read(numeral) {
            None => Err(Failure::mismatch("temperature value", "is not a number")),
            Some(celsius) => Ok(WeatherObservation { location, description, celsius }),
        }
    }

    /// The temperature in degrees Fahrenheit. It is worked out from the
    /// temperature in degrees Celsius at every call and kept nowhere.
    pub fn fahrenheit(&self) -> (f: Temperature)
        ensures
            f.units() == fahrenheit_units(self@.celsius),
    {
        self.celsius.fahrenheit()
    }

    /// The sentence that describes the weather. The location and the
    /// description are entity-encoded, so the sentence can stand in markup as
    /// it is.
    pub fn description(&self) -> (text: String)
        ensures
            text@ == description_text(self@),
    {
        let mut text = "The weather in ".to_owned();
        text.append(encode_minimal(self.location.as_str()).as_str());
        text.append(" is currently ");
        text.append(encode_minimal(self.description.as_str()).as_str());
        text.append(" and ");
        push_decimal(&mut text, self.fahrenheit().whole() as i64);
        text.append("&deg;F (");
        push_decimal(&mut text, self.celsius.whole() as i64);
        text.append("&deg;C)");
        text
    }
}

/// The root page: a heading, the sentence on the weather in Portland, and a
/// link to a comparison.
pub open spec fn root_markup(pdx: ObservationText) -> Seq<char> {
    element_markup(
        "div"@,
        Seq::empty(),
        element_markup("h1"@, Seq::empty(), escaped("Current Weather"@)) + element_markup(
            "p"@,
            Seq::empty(),
            description_text(pdx),
        ) + element_markup(
            "a"@,
            Seq::empty().push(("href"@, "/compare/KPDX/to/KSFO"@)).push(
                ("class"@, "button primary"@),
            ).push(("style"@, "margin-top: 20px;"@)),
            escaped("Compare to SF"@),
        ),
    )
}

/// The comparison page: a heading and the sentences on the two stations, in
/// the order of the path.
pub open spec fn compare_markup(first: ObservationText, second: ObservationText) -> Seq<char> {
    element_markup(
        "div"@,
        Seq::empty(),
        element_markup("h1"@, Seq::empty(), escaped("Weather Comparison"@)) + element_markup(
            "p"@,
            Seq::empty(),
            description_text(first),
        ) + element_markup("p"@, Seq::empty(), description_text(second)),
    )
}

/// Renders the root page from the observation in Portland.
pub fn root_page(pdx: &WeatherObservation) -> (page: Fragment)
    ensures
        page@ == root_markup(pdx@),
{
    let heading = Fragment::element("h1", &no_pairs(), &Fragment::text("Current Weather"));
    let sentence = Fragment::element("p", &no_pairs(), &Fragment::raw(pdx.description()));
    let link = Fragment::element(
        "a",
        &with_pair(
            with_pair(
                with_pair(no_pairs(), "href", "/compare/KPDX/to/KSFO"),
                "class",
                "button primary",
            ),
            "style",
            "margin-top: 20px;",
        ),
        &Fragment::text("Compare to SF"),
    );
    Fragment::element("div", &no_pairs(), &heading.followed_by(&sentence).followed_by(&link))
}

/// Renders the comparison of two observations.
pub fn compare_page(first: &WeatherObservation, second: &WeatherObservation) -> (page: Fragment)
    ensures
        page@ == compare_markup(first@, second@),
{
    let heading = Fragment::element("h1", &no_pairs(), &Fragment::text("Weather Comparison"));
    let one = Fragment::element("p", &no_pairs(), &Fragment::raw(first.description()));
    let other = Fragment::element("p", &no_pairs(), &Fragment::raw(second.description()));
    Fragment::element("div", &no_pairs(), &heading.followed_by(&one).followed_by(&other))
}

/// What a page that waits is waiting with.
#[derive(Debug)]
pub enum Stage {
    /// The root page has issued its one call.
    Root(WeatherRequest),
    /// The comparison has issued both calls and joined neither.
    Compare(WeatherRequest, WeatherRequest),
    /// The comparison has the first observation and waits for the second.
    CompareSecond(WeatherObservation, WeatherRequest),
}

impl Stage {
    /// The call that the stage waits for.
    pub open spec fn call(self) -> PendingCall {
        match self {
            Stage::Root(request) => request.pending,
            Stage::Compare(first, _) => first.pending,
            Stage::CompareSecond(_, second) => second.pending,
        }
    }
}

/// Whether `progress` ends in this failure.
pub open spec fn fails_with(progress: Progress<Stage>, failure: FailureText) -> bool {
    progress matches Progress::Finished(Outcome::Failed(f)) && f@ == failure
}

/// Whether `progress` is where the root page stands once it has begun, on a
/// board that was `before` and is `after`.
pub open spec fn root_begun(before: CallBoard, after: CallBoard, progress: Progress<Stage>) -> bool {
    if station_accepted("KPDX"@) {
        &&& progress matches Progress::Waiting(call, Stage::Root(request))
        &&& call == request.pending
        &&& request.pending.id == before.issued.len()
        &&& request.location@ == "Portland, OR"@
        &&& after.issued_text() == before.issued_text().push(observation_request("KPDX"@))
    } else {
        &&& fails_with(progress, FailureText::Call(CallError::Malformed))
        &&& after.issued == before.issued
    }
}

/// Whether `progress` is where the comparison of the stations `a` and `b`
/// stands once it has begun: both calls are issued, in this order, before any
/// is joined.
pub open spec fn compare_begun(
    a: Seq<char>,
    b: Seq<char>,
    before: CallBoard,
    after: CallBoard,
    progress: Progress<Stage>,
) -> bool {
    if !station_accepted(a) {
        &&& fails_with(progress, FailureText::Call(CallError::Malformed))
        &&& after.issued == before.issued
    } else if !station_accepted(b) {
        &&& fails_with(progress, FailureText::Call(CallError::Malformed))
        &&& after.issued_text() == before.issued_text().push(observation_request(a))
    } else {
        &&& progress matches Progress::Waiting(call, Stage::Compare(first, second))
        &&& call == first.pending
        &&& first.pending.id == before.issued.len()
        &&& first.location@ == a
        &&& second.pending.id == before.issued.len() + 1
        &&& second.location@ == b
        &&& after.issued_text() == before.issued_text().push(observation_request(a)).push(
            observation_request(b),
        )
    }
}

/// Whether `progress` is where a stage stands once the call it waited for was
/// joined with `joined`. The first failure ends the page; no later call is
/// joined then.
pub open spec fn resumed(
    stage: Stage,
    joined: Result<OutboundResponse, CallError>,
    progress: Progress<Stage>,
) -> bool {
    match stage {
        Stage::Root(request) => match observed(request.location@, joined) {
            Ok(pdx) => progress matches Progress::Finished(Outcome::Page(page)) && page@
                == root_markup(pdx),
            Err(failure) => fails_with(progress, failure),
        },
        Stage::Compare(first, second) => match observed(first.location@, joined) {
            Ok(seen) => {
                &&& progress matches Progress::Waiting(call, Stage::CompareSecond(kept, next))
                &&& call == second.pending
                &&& kept@ == seen
                &&& next == second
            },
            Err(failure) => fails_with(progress, failure),
        },
        Stage::CompareSecond(seen, second) => match observed(second.location@, joined) {
            Ok(last) => progress matches Progress::Finished(Outcome::Page(page)) && page@
                == compare_markup(seen@, last),
            Err(failure) => fails_with(progress, failure),
        },
    }
}

/// The pattern of a comparison: the whole path is `/compare/`, a station,
/// `/to/` and a station, each station one or more letters.
pub open spec fn compare_pattern() -> Seq<char> {
    "^/compare/([[:alpha:]]+)/to/([[:alpha:]]+)$"@
}

/// The weather application: its routes and its document shell.
pub struct Weather {
    pub router: Router,
    pub shell: Shell,
}

impl Weather {
    /// Whether the application is as `new` makes it: the comparison template
    /// first, the root path second, and the shell with the weather picture.
    pub open spec fn wf(self) -> bool {
        &&& self.router.patterns.len() == 2
        &&& self.router.patterns[0] matches Pattern::Template { engine, declared } && declared
            == 2 && regex_source(engine) == compare_pattern()
        &&& self.router.patterns[1] matches Pattern::Exact(literal) && literal@ == "/"@
        &&& self.shell.image_text() == Some("/weather.jpg"@)
        &&& self.shell.failure_prefix@ == "Weather JSON API Demo Error: "@
    }

    /// How the comparison template fares on `path`.
    pub open spec fn comparison(self, path: Seq<char>) -> Matching {
        self.router.patterns[0].matching(path)
    }

    /// Whether `progress` is where the handling of `path` stands once it has
    /// begun.
    pub open spec fn begun(
        self,
        path: Seq<char>,
        before: CallBoard,
        after: CallBoard,
        progress: Progress<Stage>,
    ) -> bool {
        match self.comparison(path) {
            Matching::Broken => {
                &&& fails_with(progress, FailureText::RouteCapture)
                &&& after.issued == before.issued
            },
            Matching::Hit(stations) => compare_begun(
                stations[0],
                stations[1],
                before,
                after,
                progress,
            ),
            Matching::Miss => if path == "/"@ {
                root_begun(before, after, progress)
            } else {
                &&& progress matches Progress::Finished(Outcome::NotFound)
                &&& after.issued == before.issued
            },
        }
    }

    /// Builds the application. Fails exactly where the pattern engine refuses
    /// the comparison pattern.
    pub fn new() -> (r: Option<Weather>)
        ensures
            r is Some == regex_accepts(compare_pattern()),
            r matches Some(weather) ==> weather.wf(),
    {
        match Pattern::template("^/compare/([[:alpha:]]+)/to/([[:alpha:]]+)$", 2) {
            None => None,
            Some(template) => {
                let mut patterns: Vec<Pattern> = Vec::new();
                patterns.push(template);
                patterns.push(Pattern::exact("/"));
                Some(
                    Weather {
                        router: Router::new(patterns),
                        shell: Shell {
                            image: Some("/weather.jpg".to_owned()),
                            failure_prefix: "Weather JSON API Demo Error: ".to_owned(),
                        },
                    },
                )
            },
        }
    }

    /// Begins the root page: one call, for the weather in Portland.
    pub fn root_begin(board: &mut CallBoard) -> (progress: Progress<Stage>)
        ensures
            final(board).joined == old(board).joined,
            root_begun(*old(board), *final(board), progress),
    {
        match WeatherRequest::new("Portland, OR", "KPDX", board) {
            Ok(request) => {
                proof {
                    assert(board.issued_text() =~= old(board).issued_text().push(
                        observation_request("KPDX"@),
                    ));
                }
                Progress::Waiting(request.pending, Stage::Root(request))
            },
            Err(failure) => Progress::Finished(Outcome::Failed(failure)),
        }
    }

    /// Begins the comparison: issues the calls for both stations, one after
    /// the other, and joins neither.
    pub fn compare_begin(station1: &str, station2: &str, board: &mut CallBoard) -> (progress:
        Progress<Stage>)
        ensures
            final(board).joined == old(board).joined,
            compare_begun(station1@, station2@, *old(board), *final(board), progress),
    {
        let first = match WeatherRequest::new(station1, station1, board) {
            Ok(request) => request,
            Err(failure) => {
                return Progress::Finished(Outcome::Failed(failure));
            },
        };
        let ghost between = *board;
        proof {
            assert(between.issued_text() =~= old(board).issued_text().push(
                observation_request(station1@),
            ));
        }
        let second = match WeatherRequest::new(station2, station2, board) {
            Ok(request) => request,
            Err(failure) => {
                return Progress::Finished(Outcome::Failed(failure));
            },
        };
        proof {
            assert(board.issued_text() =~= between.issued_text().push(
                observation_request(station2@),
            ));
        }
        Progress::Waiting(first.pending, Stage::Compare(first, second))
    }

    /// Routes the request by its path and begins the page: the comparison
    /// where the template matches, the root page for `/`, and nothing for any
    /// other path. Every call of the page is issued here, and none is joined.
    pub fn server(&self, request: &InboundRequest, board: &mut CallBoard) -> (progress: Progress<
        Stage,
    >)
        requires
            self.wf(),
        ensures
            final(board).joined == old(board).joined,
            self.begun(request.path@, *old(board), *final(board), progress),
    {
        match self.router.route(request.path.as_str()) {
            Err(failure) => Progress::Finished(Outcome::Failed(failure)),
            Ok(None) => Progress::Finished(Outcome::NotFound),
            Ok(Some(found)) => {
                if found.route == 0 {
                    proof {
                        let stations = params_text(found.params@);
                        assert(stations.len() == 2);
                    }
                    Weather::compare_begin(
                        found.params[0].as_str(),
                        found.params[1].as_str(),
                        board,
                    )
                } else {
                    Weather::root_begin(board)
                }
            },
        }
    }

    /// Resumes a page with the outcome of the call that it waited for.
    pub fn resume(
        stage: Stage,
        outcome: Result<OutboundResponse, CallError>,
        board: &mut CallBoard,
    ) -> (progress: Progress<Stage>)
        ensures
            final(board).issued == old(board).issued,
            !final(board).is_pending(stage.call()),
            old(board).is_pending(stage.call()) ==> final(board).joined@ == old(board).joined@.push(stage.call().id),
            !old(board).is_pending(stage.call()) ==> final(board).joined == old(board).joined,
            resumed(stage, old(board).join_result(stage.call(), outcome), progress),
    {
        match stage {
            Stage::Root(request) => match request.get_response(outcome, board) {
                Ok(pdx) => Progress::Finished(Outcome::Page(root_page(&pdx))),
                Err(failure) => Progress::Finished(Outcome::Failed(failure)),
            },
            Stage::Compare(first, second) => match first.get_response(outcome, board) {
                Ok(seen) => Progress::Waiting(second.pending, Stage::CompareSecond(seen, second)),
                Err(failure) => Progress::Finished(Outcome::Failed(failure)),
            },
            Stage::CompareSecond(seen, second) => match second.get_response(outcome, board) {
                Ok(last) => Progress::Finished(Outcome::Page(compare_page(&seen, &last))),
                Err(failure) => Progress::Finished(Outcome::Failed(failure)),
            },
        }
    }

    /// Handles a request up to its first wait or to its response. A path that
    /// matches no pattern is answered with an empty 404, and nothing is issued
    /// for it.
    pub fn enter(&self, request: &InboundRequest, board: &mut CallBoard) -> (step: Step<Stage>)
        requires
            self.wf(),
        ensures
            final(board).joined == old(board).joined,
            exists|progress: Progress<Stage>|
                self.begun(request.path@, *old(board), *final(board), progress)
                    && self.shell.settled(progress, step),
            step matches Step::Join(call, stage) ==> {
                &&& call == stage.call()
                &&& call.id == old(board).issued.len()
                &&& final(board).knows(call)
            },
            self.router.misses(request.path@) ==> {
                &&& step matches Step::Respond(response)
                &&& response.status == 404
                &&& response.headers@.len() == 0
                &&& response.body@.len() == 0
                &&& final(board).issued == old(board).issued
            },
    {
        let progress = self.server(request, board);
        proof {
            assert(board.issued_text().len() == board.issued@.len());
            assert(old(board).issued_text().len() == old(board).issued@.len());
        }
        self.shell.settle(progress)
    }

    /// Handles a request from the outcome of the call that it waited for up to
    /// its next wait or to its response. Whatever fails, the response says so
    /// with status 500.
    pub fn proceed(
        &self,
        stage: Stage,
        outcome: Result<OutboundResponse, CallError>,
        board: &mut CallBoard,
    ) -> (step: Step<Stage>)
        ensures
            final(board).issued == old(board).issued,
            !final(board).is_pending(stage.call()),
            old(board).is_pending(stage.call()) ==> final(board).joined@ == old(board).joined@.push(stage.call().id),
            !old(board).is_pending(stage.call()) ==> final(board).joined == old(board).joined,
            exists|progress: Progress<Stage>|
                resumed(stage, old(board).join_result(stage.call(), outcome), progress)
                    && self.shell.settled(progress, step),
            step matches Step::Join(call, next) ==> call == next.call(),
    {
        let progress = Weather::resume(stage, outcome, board);
        self.shell.settle(progress)
    }
}

/// A comparison that waits has issued both of its calls, the one that it
/// joins first before the other: no call is joined before the last is issued.
pub proof fn lemma_comparison_issues_both_before_it_joins(
    a: Seq<char>,
    b: Seq<char>,
    before: CallBoard,
    after: CallBoard,
    progress: Progress<Stage>,
)
    requires
        compare_begun(a, b, before, after, progress),
        progress is Waiting,
    ensures
        after.issued_text().len() == before.issued_text().len() + 2,
        after.issued_text()[before.issued.len() as int] == observation_request(a),
        after.issued_text()[before.issued.len() + 1] == observation_request(b),
        progress matches Progress::Waiting(call, Stage::Compare(first, second)) && call.id
            == before.issued.len() && second.pending.id == call.id + 1,
{
}

/// Two answers with the same status and the same body say the same of the
/// weather: nothing else of an answer is read.
pub proof fn lemma_same_answer_same_reading(
    location: Seq<char>,
    first: OutboundResponse,
    second: OutboundResponse,
)
    requires
        first.status == second.status,
        first.body@ == second.body@,
    ensures
        observed(location, Ok(first)) == observed(location, Ok(second)),
{
}

/// A stage resumed twice with the same joined call renders the same page,
/// character for character.
pub proof fn lemma_same_call_same_page(
    stage: Stage,
    joined: Result<OutboundResponse, CallError>,
    first: Progress<Stage>,
    second: Progress<Stage>,
)
    requires
        resumed(stage, joined, first),
        resumed(stage, joined, second),
        first matches Progress::Finished(Outcome::Page(_)),
    ensures
        first matches Progress::Finished(Outcome::Page(one)) && second matches Progress::Finished(
            Outcome::Page(other),
        ) && one@ == other@,
{
}

/// An answer with a status other than 200 fails the page, and what the
/// failure says holds the status as a decimal numeral.
pub proof fn lemma_unexpected_status_is_named(location: Seq<char>, response: OutboundResponse)
    requires
        response.status != 200,
    ensures
        observed(location, Ok(response)) matches Err(failure) && occurs_in(
            decimal_text(response.status as int),
            failure.description_text(),
        ),
{
    lemma_upstream_description_names_status(
        "weather request for "@ + location,
        response.status,
        response.body@,
    );
}

/// The sentence that describes an observation holds no `<`, `>` or `"`,
/// whatever the upstream wrote into the location and the description.
pub proof fn lemma_description_is_inert(observation: ObservationText)
    ensures
        is_inert(description_text(observation)),
{
    reveal_strlit("The weather in ");
    reveal_strlit(" is currently ");
    reveal_strlit(" and ");
    reveal_strlit("&deg;F (");
    reveal_strlit("&deg;C)");
    let a = "The weather in "@;
    let b = encoded(observation.location);
    let c = " is currently "@;
    let d = encoded(observation.description);
    let e = " and "@;
    let f = decimal_text(whole_degrees(fahrenheit_units(observation.celsius)));
    let g = "&deg;F ("@;
    let h = decimal_text(whole_degrees(observation.celsius));
    let k = "&deg;C)"@;
    lemma_encoded_is_inert(observation.location);
    lemma_encoded_is_inert(observation.description);
    lemma_decimal_is_inert(whole_degrees(fahrenheit_units(observation.celsius)));
    lemma_decimal_is_inert(whole_degrees(observation.celsius));
    lemma_inert_concat(a, b);
    lemma_inert_concat(a + b, c);
    lemma_inert_concat(a + b + c, d);
    lemma_inert_concat(a + b + c + d, e);
    lemma_inert_concat(a + b + c + d + e, f);
    lemma_inert_concat(a + b + c + d + e + f, g);
    lemma_inert_concat(a + b + c + d + e + f + g, h);
    lemma_inert_concat(a + b + c + d + e + f + g + h, k);
}

} // verus!
