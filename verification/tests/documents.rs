use guest_pages::failure::{CallError, Failure};
use guest_pages::hello::user_entrypoint;
use guest_pages::json::Json;
use guest_pages::markup::Fragment;
use guest_pages::outbound::{CallBoard, OutboundRequest, OutboundResponse, PendingCall};
use guest_pages::text::{no_pairs, with_pair};
use guest_pages::translate::{not_found_response, InboundRequest, Outcome, Progress, Shell, Step};

fn request(method: &str, uri: &str) -> OutboundRequest {
    OutboundRequest {
        method: method.to_string(),
        uri: uri.to_string(),
        headers: Vec::new(),
        body: Vec::new(),
    }
}

fn answer(status: u16) -> Result<OutboundResponse, CallError> {
    Ok(OutboundResponse { status, headers: Vec::new(), body: Vec::new() })
}

fn shell() -> Shell {
    Shell { image: None, failure_prefix: "Oops: ".to_string() }
}

#[test]
fn greeting_is_always_the_same() {
    let inbound = InboundRequest {
        method: "DELETE".to_string(),
        path: "/anything".to_string(),
        query: Some("x=1".to_string()),
        headers: Vec::new(),
        body: vec![1, 2, 3],
    };
    let response = user_entrypoint(&inbound);
    assert_eq!(response.status, 200);
    assert!(response.headers.is_empty());
    assert_eq!(response.body, b"Hello, world!".to_vec());
}

#[test]
fn document_is_decoded_into_a_tree() {
    let text = "{\"b\":[1,-2,1.5,1e-7,true,null,\"x\"],\"a\":{\"c\":\"d\"}}";
    let document = Json::decode(text.as_bytes()).unwrap();
    let items = match document.get("b") {
        Some(Json::Array(items)) => items,
        _ => panic!("b is an array"),
    };
    assert_eq!(items.len(), 7);
    assert_eq!(items[0].as_numeral(), Some("1"));
    assert_eq!(items[1].as_numeral(), Some("-2"));
    assert_eq!(items[2].as_numeral(), Some("1.5"));
    assert_eq!(items[3].as_numeral(), Some("1e-7"));
    assert!(matches!(items[4], Json::Bool(true)));
    assert!(matches!(items[5], Json::Null));
    assert_eq!(items[6].as_text(), Some("x"));
    assert_eq!(items[6].as_numeral(), None);
    assert_eq!(items[0].as_text(), None);
    let inner = document.get("a").unwrap();
    assert_eq!(inner.get("c").unwrap().as_text(), Some("d"));
    assert!(inner.get("d").is_none());
    assert!(document.get("c").is_none());
    assert!(items[0].get("a").is_none());
}

#[test]
fn members_keep_the_order_of_the_document() {
    match Json::decode(b"{\"b\":1,\"a\":2,\"c\":3,\"a\":4}").unwrap() {
        Json::Object(members) => {
            let names: Vec<&str> = members.iter().map(|(name, _)| name.as_str()).collect();
            assert_eq!(names, vec!["b", "a", "c"]);
            assert_eq!(members[1].1.as_numeral(), Some("4"));
        }
        _ => panic!("an object"),
    }
}

#[test]
fn whole_numbers_keep_their_point() {
    let document = Json::decode(b"[15.0, 15, 21.700000000000045]").unwrap();
    match document {
        Json::Array(items) => {
            assert_eq!(items[0].as_numeral(), Some("15.0"));
            assert_eq!(items[1].as_numeral(), Some("15"));
            assert_eq!(items[2].as_numeral(), Some("21.700000000000045"));
        }
        _ => panic!("an array"),
    }
}

#[test]
fn first_member_of_a_name_is_found() {
    let document = Json::Object(vec![
        ("a".to_string(), Json::Bool(false)),
        ("b".to_string(), Json::Null),
        ("a".to_string(), Json::Bool(true)),
    ]);
    assert!(matches!(document.get("a"), Some(Json::Bool(false))));
    assert!(matches!(document.get("b"), Some(Json::Null)));
    assert!(document.get("").is_none());
    assert!(Json::Object(Vec::new()).get("a").is_none());
}

#[test]
fn what_is_no_document_has_a_complaint() {
    match Json::decode(b"{\"a\":") {
        Err(Failure::Undecodable(complaint)) => assert!(!complaint.is_empty()),
        _ => panic!("half a document is none"),
    }
    assert!(matches!(Json::decode(b""), Err(Failure::Undecodable(_))));
    assert!(matches!(Json::decode(&[0xff]), Err(Failure::Undecodable(_))));
}

#[test]
fn text_is_escaped_as_content() {
    assert_eq!(Fragment::text("a < b & c > \"d\" 'e'").markup, "a &lt; b &amp; c &gt; &quot;d&quot; 'e'");
    assert_eq!(Fragment::text("").markup, "");
    assert_eq!(Fragment::text("\u{1F31F} caf\u{e9}").markup, "\u{1F31F} caf\u{e9}");
    assert_eq!(Fragment::raw("<br>".to_string()).markup, "<br>");
    assert_eq!(Fragment::empty().markup, "");
}

#[test]
fn elements_nest() {
    let inner = Fragment::element("b", &no_pairs(), &Fragment::text("1 < 2"));
    let attributes = with_pair(with_pair(no_pairs(), "id", "x"), "title", "a \"b\" <c>");
    let outer = Fragment::element("p", &attributes, &inner.followed_by(&Fragment::text("!")));
    assert_eq!(
        outer.markup,
        "<p id=\"x\" title=\"a &quot;b&quot; &lt;c&gt;\"><b>1 &lt; 2</b>!</p>"
    );
    assert_eq!(Fragment::element("i", &no_pairs(), &Fragment::empty()).markup, "<i></i>");
}

#[test]
fn page_is_wrapped_in_the_document() {
    let page = Fragment::raw("<p>hi</p>".to_string());
    let response = shell().translate(&Outcome::Page(page));
    assert_eq!(response.status, 200);
    assert_eq!(
        response.headers,
        vec![("content-type".to_string(), "text/html; charset=utf-8".to_string())]
    );
    assert_eq!(
        String::from_utf8(response.body).unwrap(),
        "<!DOCTYPE html><head><link rel=\"stylesheet\" type=\"text/css\" href=\"/style.css\">\
         </link></head><body><div class=\"fui-tile\" style=\"display: flex;flex-direction: row; \
         align-items: center; margin: 20px;\"><p>hi</p></div></body>"
    );
}

#[test]
fn picture_stands_before_the_page() {
    let with_picture = Shell { image: Some("/a&b.jpg".to_string()), failure_prefix: String::new() };
    let document = with_picture.document(&Fragment::raw("X".to_string()));
    assert!(document.markup.contains(
        "<img src=\"/a&amp;b.jpg\" style=\"max-height: 200px; margin-top: 20px; margin-bottom: \
         20px\"></img>X</div>"
    ));
}

#[test]
fn not_found_is_empty() {
    let response = shell().translate(&Outcome::NotFound);
    assert_eq!(response.status, 404);
    assert!(response.headers.is_empty());
    assert!(response.body.is_empty());
    let direct = not_found_response();
    assert_eq!(direct.status, 404);
    assert!(direct.body.is_empty());
}

#[test]
fn failure_is_a_500_in_plain_text() {
    let failure = Failure::missing("it", "<name>");
    let response = shell().translate(&Outcome::Failed(failure));
    assert_eq!(response.status, 500);
    assert!(response.headers.is_empty());
    assert_eq!(String::from_utf8(response.body).unwrap(), "Oops: it missing <name>");
}

#[test]
fn every_failure_says_what_failed() {
    assert_eq!(Failure::Call(CallError::Timeout).description(), "outbound call timed out");
    assert_eq!(
        Failure::Call(CallError::Transport).description(),
        "outbound call failed in transport"
    );
    assert_eq!(Failure::Call(CallError::Malformed).description(), "outbound call was malformed");
    assert_eq!(
        Failure::Call(CallError::AlreadyJoined).description(),
        "outbound call was joined before"
    );
    assert_eq!(
        Failure::Upstream { subject: "it".to_string(), status: 503, body: b"down".to_vec() }
            .description(),
        "it returned 503 Service Unavailable: down"
    );
    assert_eq!(
        Failure::Upstream { subject: "it".to_string(), status: 0, body: vec![0x80] }.description(),
        "it returned 0 <unknown status code>: (utf8 error)"
    );
    assert_eq!(
        Failure::Upstream { subject: String::new(), status: 65535, body: "\u{e9}".as_bytes().to_vec() }
            .description(),
        " returned 65535 <unknown status code>: \u{e9}"
    );
    assert_eq!(
        Failure::Upstream { subject: "it".to_string(), status: 599, body: Vec::new() }
            .description(),
        "it returned 599 <unknown status code>: "
    );
    assert_eq!(
        Failure::Upstream { subject: "it".to_string(), status: 418, body: Vec::new() }
            .description(),
        "it returned 418 I'm a teapot: "
    );
    assert_eq!(Failure::Undecodable("EOF".to_string()).description(), "EOF");
    assert_eq!(
        Failure::ResponseErrors(b"{\"errors\":[]}".to_vec()).description(),
        "GraphQL response errors: {\"errors\":[]}"
    );
    assert_eq!(
        Failure::ResponseErrors(vec![0xc0]).description(),
        "GraphQL response errors: (utf8 error)"
    );
    assert_eq!(
        Failure::MissingField { holder: "a".to_string(), name: "b".to_string() }.description(),
        "a missing b"
    );
    assert_eq!(Failure::missing("weather", "temperature").description(), "weather missing temperature");
    assert_eq!(
        Failure::TypeMismatch { name: "a b".to_string(), fault: "is not c".to_string() }
            .description(),
        "a b is not c"
    );
    assert_eq!(Failure::mismatch("x", "was not str").description(), "x was not str");
    assert_eq!(Failure::RouteCapture.description(), "could not determine a captured parameter");
}

#[test]
fn settling_joins_or_responds() {
    let call = PendingCall { id: 3 };
    match shell().settle(Progress::Waiting(call, "stage")) {
        Step::Join(joined, stage) => {
            assert_eq!(joined, call);
            assert_eq!(stage, "stage");
        }
        _ => panic!("a waiting page is joined"),
    }
    match shell().settle(Progress::<()>::Finished(Outcome::NotFound)) {
        Step::Respond(response) => assert_eq!(response.status, 404),
        _ => panic!("a finished page responds"),
    }
}

#[test]
fn well_formed_requests_are_issued() {
    let mut board = CallBoard::new();
    assert_eq!(board.issue(request("GET", "https://example.com/a?b=c")), Ok(PendingCall { id: 0 }));
    assert_eq!(board.issue(request("POST", "/")), Ok(PendingCall { id: 1 }));
    assert_eq!(board.issue(request("PURGE", "example.com")), Ok(PendingCall { id: 2 }));
    assert_eq!(board.issued.len(), 3);
    assert_eq!(board.issued[1].method, "POST");
    assert!(board.joined.is_empty());
}

#[test]
fn malformed_requests_are_refused() {
    let mut board = CallBoard::new();
    assert_eq!(board.issue(request("GET", "")), Err(CallError::Malformed));
    assert_eq!(board.issue(request("", "https://example.com/")), Err(CallError::Malformed));
    assert_eq!(board.issue(request("G T", "https://example.com/")), Err(CallError::Malformed));
    assert_eq!(board.issue(request("GET", "https://exa mple.com/")), Err(CallError::Malformed));
    assert!(board.issued.is_empty());
    assert!(!request("GET", "").is_well_formed());
    assert!(request("GET", "/").is_well_formed());
    assert_eq!(board.register(request("", ""), true), Ok(PendingCall { id: 0 }));
    assert_eq!(board.register(request("GET", "/"), false), Err(CallError::Malformed));
    assert_eq!(board.issued.len(), 1);
}

#[test]
fn calls_are_joined_in_any_order_and_once() {
    let mut board = CallBoard::new();
    let a = board.issue(request("GET", "/a")).unwrap();
    let b = board.issue(request("GET", "/b")).unwrap();
    assert!(!board.joined_already(a));
    assert_eq!(board.join(b, answer(204)).map(|r| r.status), Ok(204));
    assert!(board.joined_already(b));
    assert!(!board.joined_already(a));
    assert_eq!(board.join(a, Err(CallError::Timeout)).map(|r| r.status), Err(CallError::Timeout));
    assert_eq!(board.joined, vec![1, 0]);
    assert_eq!(board.join(a, answer(200)).map(|r| r.status), Err(CallError::AlreadyJoined));
    assert_eq!(board.join(b, answer(200)).map(|r| r.status), Err(CallError::AlreadyJoined));
    assert_eq!(board.joined, vec![1, 0]);
    assert_eq!(board.issued.len(), 2);
}

#[test]
fn handle_of_another_board_is_malformed() {
    let mut board = CallBoard::new();
    let stranger = PendingCall { id: 0 };
    assert_eq!(board.join(stranger, answer(200)).map(|r| r.status), Err(CallError::Malformed));
    assert!(board.joined.is_empty());
    board.issue(request("GET", "/")).unwrap();
    assert_eq!(board.join(stranger, answer(200)).map(|r| r.status), Ok(200));
}
