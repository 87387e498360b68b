use guest_pages::failure::{CallError, Failure};
use guest_pages::github::{
    read_answer, read_count, read_issue, read_issues, read_repository, repo_page, root_page,
    unconfigured_page, Github, Issue, Repository,
};
use guest_pages::json::Json;
use guest_pages::outbound::{CallBoard, OutboundResponse};
use guest_pages::translate::{InboundRequest, Response, Step};

const ANSWER: &str = "{\"data\":{\"repository\":{\"stargazers\":{\"totalCount\":4200},\
    \"issues\":{\"nodes\":[{\"title\":\"Crash in <parser>\",\"comments\":{\"totalCount\":3}},\
    null,{\"title\":\"Docs & examples\",\"comments\":{\"totalCount\":0}}]}}}}";

fn inbound(path: &str) -> InboundRequest {
    InboundRequest {
        method: "GET".to_string(),
        path: path.to_string(),
        query: None,
        headers: Vec::new(),
        body: Vec::new(),
    }
}

fn answer(status: u16, body: &str) -> Result<OutboundResponse, CallError> {
    Ok(OutboundResponse { status, headers: Vec::new(), body: body.as_bytes().to_vec() })
}

fn serve(
    token: &str,
    path: &str,
    answers: Vec<Result<OutboundResponse, CallError>>,
) -> (Response, CallBoard) {
    let github = Github::new(token).expect("the pattern compiles");
    let mut board = CallBoard::new();
    let mut answers = answers.into_iter();
    let mut step = github.enter(&inbound(path), &mut board);
    loop {
        match step {
            Step::Respond(response) => return (response, board),
            Step::Join(call, stage) => {
                assert_eq!(call, stage.pending);
                let outcome = answers.next().expect("an answer for every join");
                step = github.proceed(stage, outcome, &mut board);
            }
        }
    }
}

fn body_text(response: &Response) -> String {
    String::from_utf8(response.body.clone()).expect("the body is text")
}

fn document(text: &str) -> Json {
    Json::decode(text.as_bytes()).expect("a document")
}

#[test]
fn without_a_token_every_page_shows_the_same_sentence() {
    for path in ["/", "/view/a/b"] {
        let (response, board) = serve("YOUR_TOKEN_HERE", path, vec![]);
        assert_eq!(response.status, 200);
        assert!(body_text(&response).contains(
            "<div><p>Error: must set a valid GitHub API token before compiling.</p></div>"
        ));
        assert!(board.issued.is_empty());
    }
    assert_eq!(
        unconfigured_page().markup,
        "<div><p>Error: must set a valid GitHub API token before compiling.</p></div>"
    );
}

#[test]
fn github_root_page_links_to_a_repository() {
    let (response, board) = serve("t0ken", "/", vec![]);
    assert_eq!(response.status, 200);
    assert!(board.issued.is_empty());
    assert_eq!(
        body_text(&response),
        "<!DOCTYPE html><head><link rel=\"stylesheet\" type=\"text/css\" href=\"/style.css\">\
         </link></head><body><div class=\"fui-tile\" style=\"display: flex;flex-direction: row; \
         align-items: center; margin: 20px;\"><div><h1>Repo Viewer</h1>\
         <a href=\"/view/CraneStation/cranelift\" class=\"button primary\" \
         style=\"margin-top: 20px;\">View CraneStation/cranelift</a></div></div></body>"
    );
    assert!(body_text(&response).contains(&root_page().markup));
}

#[test]
fn github_unknown_path_is_not_found() {
    let (response, board) = serve("t0ken", "/unknown", vec![]);
    assert_eq!(response.status, 404);
    assert!(response.body.is_empty());
    assert!(response.headers.is_empty());
    assert!(board.issued.is_empty());
    let (short, _) = serve("t0ken", "/view/owner", vec![]);
    assert_eq!(short.status, 404);
}

#[test]
fn github_unknown_path_is_not_found_without_a_token() {
    for path in ["/unknown", "/nothing", "", "/view/a", "/view/a/b/c", "/x/view/a/b", "/view//b"] {
        let (response, board) = serve("YOUR_TOKEN_HERE", path, vec![]);
        assert_eq!(response.status, 404, "{}", path);
        assert!(response.body.is_empty(), "{}", path);
        assert!(response.headers.is_empty(), "{}", path);
        assert!(board.issued.is_empty(), "{}", path);
    }
}

#[test]
fn repository_is_the_whole_path() {
    for path in ["/view/a/b/c", "/x/view/a/b", "/view/a/b/", "view/a/b"] {
        let (response, board) = serve("t0ken", path, vec![]);
        assert_eq!(response.status, 404, "{}", path);
        assert!(response.body.is_empty(), "{}", path);
        assert!(board.issued.is_empty(), "{}", path);
    }
}

#[test]
fn repository_page_asks_the_api_with_the_token() {
    let (response, board) = serve("t0ken", "/view/rust-lang/rust", vec![answer(200, ANSWER)]);
    assert_eq!(response.status, 200);
    assert_eq!(board.issued.len(), 1);
    assert_eq!(board.joined, vec![0]);
    let request = &board.issued[0];
    assert_eq!(request.method, "POST");
    assert_eq!(request.uri, "https://api.github.com/graphql");
    assert_eq!(request.headers, vec![("authorization".to_string(), "Bearer t0ken".to_string())]);
    let sent: serde_json::Value = serde_json::from_slice(&request.body).expect("a body in JSON");
    assert_eq!(sent["operationName"], "RepoView");
    assert_eq!(sent["variables"]["owner"], "rust-lang");
    assert_eq!(sent["variables"]["name"], "rust");
    let written = String::from_utf8(request.body.clone()).expect("a body in text");
    assert!(written.starts_with("{\"variables\":{\"owner\":\"rust-lang\",\"name\":\"rust\"},\"query\":\""));
    assert!(written.ends_with("\",\"operationName\":\"RepoView\"}"));
    let query = sent["query"].as_str().expect("a query");
    assert!(query.starts_with("query RepoView($owner: String!, $name: String!)"));
    assert!(query.contains("stargazers { totalCount }"));
    assert!(query.contains("nodes { title comments { totalCount } }"));
}

#[test]
fn repository_page_lists_the_issues() {
    let (response, _) = serve("t0ken", "/view/rust-lang/rust", vec![answer(200, ANSWER)]);
    assert_eq!(response.status, 200);
    assert!(body_text(&response).contains(
        "<div><h1>rust-lang/rust - \u{1F31F} 4200</h1><table class=\"fui-table\">\
         <tr><th>Title</th><th>Comments</th></tr>\
         <tr><td>Crash in &lt;parser&gt;</td><td>3</td></tr>\
         <tr><td>Docs &amp; examples</td><td>0</td></tr></table></div>"
    ));
}

#[test]
fn repository_page_escapes_what_the_path_and_the_upstream_wrote() {
    let (response, _) = serve("t0ken", "/view/<b>/a&b", vec![answer(200, ANSWER)]);
    let body = body_text(&response);
    assert!(body.contains("<h1>&lt;b&gt;/a&amp;b - "));
    assert!(!body.contains("<b>"));
    assert!(!body.contains("<parser>"));
    let slanted = "{\"data\":{\"repository\":{\"stargazers\":{\"totalCount\":1},\
        \"issues\":{\"nodes\":[{\"title\":\"<i>x</i>\",\"comments\":{\"totalCount\":0}}]}}}}";
    let (response, _) = serve("t0ken", "/view/<b>/a&b", vec![answer(200, slanted)]);
    let body = body_text(&response);
    assert!(body.contains("&lt;b&gt;/a&amp;b"));
    assert!(body.contains("&lt;i&gt;x&lt;/i&gt;"));
    assert!(!body.contains("<b>"));
    assert!(!body.contains("<i>"));
}

#[test]
fn repository_page_is_rendered_from_plain_values() {
    let repository = Repository {
        stars: -1,
        issues: vec![
            None,
            Some(Issue { title: "\"quoted\"".to_string(), comments: 12 }),
            None,
        ],
    };
    assert_eq!(
        repo_page("o", "n", &repository).markup,
        "<div><h1>o/n - \u{1F31F} -1</h1><table class=\"fui-table\">\
         <tr><th>Title</th><th>Comments</th></tr>\
         <tr><td>&quot;quoted&quot;</td><td>12</td></tr></table></div>"
    );
    let bare = Repository { stars: 0, issues: Vec::new() };
    assert_eq!(
        repo_page("", "", &bare).markup,
        "<div><h1>/ - \u{1F31F} 0</h1><table class=\"fui-table\">\
         <tr><th>Title</th><th>Comments</th></tr></table></div>"
    );
}

#[test]
fn answer_with_errors_fails() {
    let text = "{\"data\":null,\"errors\":[{\"message\":\"Bad credentials\"}]}";
    let (response, _) = serve("t0ken", "/view/a/b", vec![answer(200, text)]);
    assert_eq!(response.status, 500);
    assert_eq!(
        body_text(&response),
        format!("GitHub GraphQL demo error: GraphQL response errors: {}", text)
    );
    let empty = "{\"data\":{\"repository\":null},\"errors\":[]}";
    let (also, _) = serve("t0ken", "/view/a/b", vec![answer(200, empty)]);
    assert_eq!(also.status, 500);
    assert!(body_text(&also).contains("GraphQL response errors: "));
    assert!(matches!(
        read_answer(OutboundResponse {
            status: 200,
            headers: Vec::new(),
            body: text.as_bytes().to_vec()
        }),
        Err(Failure::ResponseErrors(body)) if body == text.as_bytes()
    ));
}

#[test]
fn answer_with_another_status_fails_and_names_it() {
    let (response, _) = serve("t0ken", "/view/a/b", vec![answer(503, "busy")]);
    assert_eq!(response.status, 500);
    assert_eq!(
        body_text(&response),
        "GitHub GraphQL demo error: GitHub query returned 503 Service Unavailable: busy"
    );
}

#[test]
fn failed_call_fails_the_page() {
    let (response, board) = serve("t0ken", "/view/a/b", vec![Err(CallError::Transport)]);
    assert_eq!(response.status, 500);
    assert_eq!(
        body_text(&response),
        "GitHub GraphQL demo error: outbound call failed in transport"
    );
    assert_eq!(board.joined, vec![0]);
}

#[test]
fn answers_are_read_field_by_field() {
    let read = |status: u16, text: &str| {
        read_answer(OutboundResponse {
            status,
            headers: Vec::new(),
            body: text.as_bytes().to_vec(),
        })
    };
    let said = |status: u16, text: &str| read(status, text).unwrap_err().description();
    assert!(matches!(read(200, "{"), Err(Failure::Undecodable(_))));
    assert!(matches!(
        read(200, "{}"),
        Err(Failure::MissingField { holder, name }) if holder == "response" && name == "data"
    ));
    assert_eq!(said(200, "{}"), "response missing data");
    assert_eq!(said(200, "{\"data\":null,\"errors\":null}"), "response missing data");
    assert_eq!(said(200, "{\"data\":{}}"), "data missing repository");
    assert_eq!(said(200, "{\"data\":{\"repository\":null}}"), "data missing repository");
    assert_eq!(said(200, "{\"data\":{\"repository\":{}}}"), "repository missing stargazers");
    assert_eq!(
        said(200, "{\"data\":{\"repository\":{\"stargazers\":{}}}}"),
        "stargazers missing totalCount"
    );
    assert!(matches!(
        read(200, "{\"data\":{\"repository\":{\"stargazers\":{\"totalCount\":\"1\"}}}}"),
        Err(Failure::TypeMismatch { name, fault })
            if name == "stargazers totalCount" && fault == "is not an integer"
    ));
    assert_eq!(
        said(200, "{\"data\":{\"repository\":{\"stargazers\":{\"totalCount\":1.5}}}}"),
        "stargazers totalCount is not an integer"
    );
    let starred = "{\"data\":{\"repository\":{\"stargazers\":{\"totalCount\":1}";
    assert_eq!(said(200, &format!("{}}}}}}}", starred)), "repository missing issues");
    assert_eq!(said(200, &format!("{},\"issues\":{{}}}}}}}}", starred)), "issues missing nodes");
    assert_eq!(
        said(200, &format!("{},\"issues\":{{\"nodes\":null}}}}}}}}", starred)),
        "issues missing nodes"
    );
    assert_eq!(
        said(200, &format!("{},\"issues\":{{\"nodes\":7}}}}}}}}", starred)),
        "nodes is not a list"
    );
    assert_eq!(
        said(200, &format!("{},\"issues\":{{\"nodes\":[{{}}]}}}}}}}}", starred)),
        "issue missing title"
    );
    assert_eq!(
        said(200, &format!("{},\"issues\":{{\"nodes\":[{{\"title\":1}}]}}}}}}}}", starred)),
        "title is not text"
    );
    assert_eq!(
        said(200, &format!("{},\"issues\":{{\"nodes\":[{{\"title\":\"t\"}}]}}}}}}}}", starred)),
        "issue missing comments"
    );
    let good = read(200, &format!("{},\"issues\":{{\"nodes\":[]}}}}}}}}", starred)).unwrap();
    assert_eq!(good.stars, 1);
    assert!(good.issues.is_empty());
    assert!(matches!(read(201, ANSWER), Err(Failure::Upstream { status: 201, .. })));
}

#[test]
fn first_issue_that_fails_fails_them_all() {
    let nodes = match document("[null, {\"title\":1}, {}]") {
        Json::Array(nodes) => nodes,
        _ => panic!("an array"),
    };
    assert!(matches!(
        read_issues(&nodes),
        Err(Failure::TypeMismatch { name, .. }) if name == "title"
    ));
    assert!(matches!(read_issue(&nodes[0]), Ok(None)));
    assert!(matches!(
        read_issue(&nodes[2]),
        Err(Failure::MissingField { name, .. }) if name == "title"
    ));
    assert!(matches!(read_issue(&Json::Bool(true)), Err(Failure::MissingField { .. })));
    let fine = match document("[{\"title\":\"t\",\"comments\":{\"totalCount\":5}}, null]") {
        Json::Array(nodes) => nodes,
        _ => panic!("an array"),
    };
    let issues = read_issues(&fine).unwrap();
    assert_eq!(issues.len(), 2);
    assert_eq!(issues[0].as_ref().map(|i| (i.title.as_str(), i.comments)), Some(("t", 5)));
    assert!(issues[1].is_none());
    assert!(read_issues(&Vec::new()).unwrap().is_empty());
}

#[test]
fn counts_are_integers() {
    let holder = document(
        "{\"a\":{\"totalCount\":-3},\"b\":{\"totalCount\":9223372036854775808},\"c\":null,\
         \"d\":{\"totalCount\":9223372036854775807}}",
    );
    let said = |name: &str| read_count(&holder, "it", name).unwrap_err().description();
    assert!(matches!(read_count(&holder, "it", "a"), Ok(-3)));
    assert!(matches!(read_count(&holder, "it", "d"), Ok(i64::MAX)));
    assert_eq!(said("b"), "b totalCount is not an integer");
    assert_eq!(said("c"), "it missing c");
    assert_eq!(said("e"), "it missing e");
    assert!(matches!(
        read_count(&holder, "it", "e"),
        Err(Failure::MissingField { holder, name }) if holder == "it" && name == "e"
    ));
}

#[test]
fn repository_is_read_from_a_document() {
    let repository = read_repository(&document(ANSWER)).unwrap();
    assert_eq!(repository.stars, 4200);
    assert_eq!(repository.issues.len(), 3);
    assert!(repository.issues[1].is_none());
    assert_eq!(repository.issues[2].as_ref().unwrap().title, "Docs & examples");
}
