//! Pages that show a repository of GitHub, asked for over GraphQL.

use crate::escape::{
    escaped, is_inert, lemma_decimal_is_inert, lemma_escaped_is_inert, lemma_inert_concat,
};
use crate::failure::{
    lemma_upstream_description_names_status, CallError, Failure, FailureText,
};
use crate::json::{decoded, Json};
use crate::markup::{element_markup, Fragment};
use crate::numeral::{integer_reading, read_integer};
use crate::outbound::{
    uri_accepted, CallBoard, MessageText, OutboundRequest, OutboundResponse, PendingCall,
};
use crate::router::{params_text, regex_accepts, regex_source, Matching, Pattern, Router};
use crate::text::{decimal_text, no_pairs, occurs_in, pairs_text, push_decimal, with_pair};
use crate::translate::{InboundRequest, Outcome, Progress, Shell, Step};
use graphql_client::QueryBody;
use serde_json::Value;
use vstd::prelude::*;

verus! {

/// The bytes that `serde_json::to_vec` writes for a `graphql_client::QueryBody`
/// with this query, this operation name and these variables, each a string;
/// nothing where it fails.
pub uninterp spec fn query_bytes(
    query: Seq<char>,
    operation: Seq<char>,
    variables: Seq<(Seq<char>, Seq<char>)>,
) -> Option<Seq<u8>>;

/// Puts the variables into a `serde_json::Map` as strings, in the order
/// given, and calls `serde_json::to_vec` on a `QueryBody` with them.
#[verifier::external_body]
fn serialize_query(
    query: &'static str,
    operation: &'static str,
    variables: &Vec<(String, String)>,
) -> (r: Result<Vec<u8>, serde_json::Error>)
    ensures
        match r {
            Ok(bytes) => query_bytes(query@, operation@, pairs_text(variables@)) == Some(bytes@),
            Err(_) => query_bytes(query@, operation@, pairs_text(variables@)) is None,
        },
{
    let variables: serde_json::Map<String, Value> = variables.iter().map(
        |(name, value)| (name.clone(), Value::String(value.clone())),
    ).collect();
    serde_json::to_vec(&QueryBody { variables: Value::Object(variables), query, operation_name: operation })
}

/// The query for the stars of a repository and its open issues.
pub open spec fn repo_query() -> Seq<char> {
    "query RepoView($owner: String!, $name: String!) { repository(owner: $owner, name: $name) { stargazers { totalCount } issues(first: 20, states: OPEN) { nodes { title comments { totalCount } } } } }"@
}

/// The body of the query for the repository `name` of `owner`.
pub open spec fn repo_query_bytes(owner: Seq<char>, name: Seq<char>) -> Option<Seq<u8>> {
    query_bytes(
        repo_query(),
        "RepoView"@,
        Seq::empty().push(("owner"@, owner)).push(("name"@, name)),
    )
}

/// The request that carries a query body to the API, with the token.
pub open spec fn repo_request(token: Seq<char>, body: Seq<u8>) -> MessageText {
    MessageText {
        line: "POST"@,
        target: "https://api.github.com/graphql"@,
        headers: Seq::empty().push(("authorization"@, "Bearer "@ + token)),
        body,
    }
}

/// Whether a request to the API can be sent: its method always can, so its
/// target decides.
pub open spec fn api_accepted() -> bool {
    uri_accepted("https://api.github.com/graphql"@)
}

/// An open issue.
#[derive(Debug)]
pub struct Issue {
    pub title: String,
    /// How many comments it has.
    pub comments: i64,
}

/// What the pages show of a repository.
#[derive(Debug)]
pub struct Repository {
    /// How many users starred it.
    pub stars: i64,
    /// Its open issues, in the order of the answer; an issue that the answer
    /// left out is `None`.
    pub issues: Vec<Option<Issue>>,
}

/// An issue, with its title as a sequence of characters.
pub struct IssueText {
    pub title: Seq<char>,
    pub comments: int,
}

/// A repository, with its texts as sequences of characters.
pub struct RepositoryText {
    pub stars: int,
    pub issues: Seq<Option<IssueText>>,
}

/// An issue or its absence, as text.
pub open spec fn issue_text(issue: Option<Issue>) -> Option<IssueText> {
    match issue {
        Some(i) => Some(IssueText { title: i.title@, comments: i.comments as int }),
        None => None,
    }
}

/// Issues, as text.
pub open spec fn issues_text(issues: Seq<Option<Issue>>) -> Seq<Option<IssueText>> {
    Seq::new(issues.len(), |i: int| issue_text(issues[i]))
}

impl View for Repository {
    type V = RepositoryText;

    open spec fn view(&self) -> RepositoryText {
        RepositoryText { stars: self.stars as int, issues: issues_text(self.issues@) }
    }
}

/// The member called `name`, where there is one that is not null.
pub open spec fn present(holder: Json, name: Seq<char>) -> Option<Json> {
    match holder.member(name) {
        Some(Json::Null) => None,
        other => other,
    }
}

/// What is said of a `totalCount` that is no integer.
pub open spec fn no_count(name: Seq<char>) -> FailureText {
    FailureText::TypeMismatch { name: name + " totalCount"@, fault: "is not an integer"@ }
}

/// The `totalCount` of the member `name` of `holder`, an integer;
/// `holder_name` is what the holder is called where the member is missing.
pub open spec fn count_in(holder: Json, holder_name: Seq<char>, name: Seq<char>) -> Result<
    int,
    FailureText,
> {
    match present(holder, name) {
        None => Err(FailureText::MissingField { holder: holder_name, name }),
        Some(counted) => match counted.member("totalCount"@) {
            None => Err(FailureText::MissingField { holder: name, name: "totalCount"@ }),
            Some(count) => match count.numeral() {
                None => Err(no_count(name)),
                Some(numeral) => match integer_reading(numeral) {
                    None => Err(no_count(name)),
                    Some(value) => Ok(value),
                },
            },
        },
    }
}

/// What one node of the issues says: no issue where it is null, and else a
/// title, which is text, and a count of comments.
pub open spec fn issue_of(node: Json) -> Result<Option<IssueText>, FailureText> {
    if node is Null {
        Ok(None)
    } else {
        match node.member("title"@) {
            None => Err(FailureText::MissingField { holder: "issue"@, name: "title"@ }),
            Some(titled) => match titled.text() {
                None => Err(FailureText::TypeMismatch { name: "title"@, fault: "is not text"@ }),
                Some(title) => match count_in(node, "issue"@, "comments"@) {
                    Err(failure) => Err(failure),
                    Ok(comments) => Ok(Some(IssueText { title, comments })),
                },
            },
        }
    }
}

/// What the nodes of the issues say, in order; the first node that fails
/// fails them all.
pub open spec fn issues_of(nodes: Seq<Json>) -> Result<Seq<Option<IssueText>>, FailureText>
    decreases nodes.len(),
{
    if nodes.len() == 0 {
        Ok(Seq::empty())
    } else {
        match issues_of(nodes.drop_last()) {
            Err(failure) => Err(failure),
            Ok(issues) => match issue_of(nodes.last()) {
                Err(failure) => Err(failure),
                Ok(issue) => Ok(issues.push(issue)),
            },
        }
    }
}

/// What a document of the API says of the repository: `data.repository` with
/// the count of its stargazers and the nodes of its issues.
pub open spec fn repository_of(document: Json) -> Result<RepositoryText, FailureText> {
    match present(document, "data"@) {
        None => Err(FailureText::MissingField { holder: "response"@, name: "data"@ }),
        Some(data) => match present(data, "repository"@) {
            None => Err(FailureText::MissingField { holder: "data"@, name: "repository"@ }),
            Some(repository) => match count_in(repository, "repository"@, "stargazers"@) {
                Err(failure) => Err(failure),
                Ok(stars) => match present(repository, "issues"@) {
                    None => Err(
                        FailureText::MissingField { holder: "repository"@, name: "issues"@ },
                    ),
                    Some(issues) => match present(issues, "nodes"@) {
                        None => Err(
                            FailureText::MissingField { holder: "issues"@, name: "nodes"@ },
                        ),
                        Some(Json::Array(nodes)) => match issues_of(nodes@) {
                            Err(failure) => Err(failure),
                            Ok(issues) => Ok(RepositoryText { stars, issues }),
                        },
                        Some(_) => Err(
                            FailureText::TypeMismatch { name: "nodes"@, fault: "is not a list"@ },
                        ),
                    },
                },
            },
        },
    }
}

/// What an answer with this status and body says of the repository: status
/// 200 is the only success, its body is a document, and a document with
/// `errors` fails with the answer that holds them.
pub open spec fn answered(status: u16, body: Seq<u8>) -> Result<RepositoryText, FailureText> {
    if status == 200 {
        match decoded(body) {
            Err(complaint) => Err(FailureText::Undecodable(complaint)),
            Ok(document) => if present(document, "errors"@) is Some {
                Err(FailureText::ResponseErrors(body))
            } else {
                repository_of(document)
            },
        }
    } else {
        Err(FailureText::Upstream { subject: "GitHub query"@, status, body })
    }
}

/// What a joined call says of the repository.
pub open spec fn observed(joined: Result<OutboundResponse, CallError>) -> Result<
    RepositoryText,
    FailureText,
> {
    match joined {
        Ok(response) => answered(response.status, response.body@),
        Err(error) => Err(FailureText::Call(error)),
    }
}

/// A repository or a failure, as text.
pub open spec fn reading_text(r: Result<Repository, Failure>) -> Result<
    RepositoryText,
    FailureText,
> {
    match r {
        Ok(repository) => Ok(repository@),
        Err(failure) => Err(failure@),
    }
}

/// The member called `name`, where there is one that is not null.
pub fn get_present<'a>(holder: &'a Json, name: &str) -> (r: Option<&'a Json>)
    ensures
        match present(*holder, name@) {
            Some(member) => r == Some(&member),
            None => r is None,
        },
{
    match holder.get(name) {
        Some(Json::Null) => None,
        other => other,
    }
}

/// The failure of a `totalCount` that is no integer.
fn count_mismatch(name: &str) -> (failure: Failure)
    ensures
        failure@ == no_count(name@),
{
    let mut counted = name.to_owned();
    counted.append(" totalCount");
    Failure::mismatch(counted.as_str(), "is not an integer")
}

/// Reads the `totalCount` of the member `name` of `holder`.
pub fn read_count(holder: &Json, holder_name: &str, name: &str) -> (r: Result<i64, Failure>)
    ensures
        match count_in(*holder, holder_name@, name@) {
            Ok(value) => r == Ok::<i64, Failure>(value as i64) && i64::MIN <= value <= i64::MAX,
            Err(failure) => r matches Err(f) && f@ == failure,
        },
{
    let counted = match get_present(holder, name) {
        None => {
            return Err(Failure::missing(holder_name, name));
        },
        Some(counted) => counted,
    };
    let count = match counted.get("totalCount") {
        None => {
            return Err(Failure::missing(name, "totalCount"));
        },
        Some(count) => count,
    };
    match count.as_numeral() {
        None => Err(count_mismatch(name)),
        Some(numeral) => match read_integer(numeral) {
            None => Err(count_mismatch(name)),
            Some(value) => Ok(value),
        },
    }
}

/// Reads one node of the issues.
pub fn read_issue(node: &Json) -> (r: Result<Option<Issue>, Failure>)
    ensures
        match issue_of(*node) {
            Ok(issue) => r matches Ok(i) && issue_text(i) == issue,
            Err(failure) => r matches Err(f) && f@ == failure,
        },
{
    if let Json::Null = node {
        return Ok(None);
    }
    let title = match node.get("title") {
        None => {
            return Err(Failure::missing("issue", "title"));
        },
        Some(titled) => match titled.as_text() {
            None => {
                return Err(Failure::mismatch("title", "is not text"));
            },
            Some(title) => title.to_owned(),
        },
    };
    match read_count(node, "issue", "comments") {
        Err(failure) => Err(failure),
        Ok(comments) => Ok(Some(Issue { title, comments })),
    }
}

/// Reads the nodes of the issues, in order, up to the first that fails.
pub fn read_issues(nodes: &Vec<Json>) -> (r: Result<Vec<Option<Issue>>, Failure>)
    ensures
        match issues_of(nodes@) {
            Ok(issues) => r matches Ok(read) && issues_text(read@) == issues,
            Err(failure) => r matches Err(f) && f@ == failure,
        },
{
    let mut issues: Vec<Option<Issue>> = Vec::new();
    let mut i: usize = 0;
    proof {
        assert(issues_text(issues@) =~= Seq::empty());
    }
    while i < nodes.len()
        invariant
            0 <= i <= nodes.len(),
            issues_of(nodes@.subrange(0, i as int)) == Ok::<Seq<Option<IssueText>>, FailureText>(
                issues_text(issues@),
            ),
        decreases nodes.len() - i,
    {
        proof {
            let done = nodes@.subrange(0, i + 1);
            assert(done.drop_last() =~= nodes@.subrange(0, i as int));
            lemma_issues_fail_on(nodes@, i + 1);
        }
        match read_issue(&nodes[i]) {
            Err(failure) => {
                return Err(failure);
            },
            Ok(issue) => {
                let ghost before = issues_text(issues@);
                issues.push(issue);
                proof {
                    assert(issues_text(issues@) =~= before.push(issue_text(issue)));
                }
            },
        }
        i += 1;
    }
    proof {
        assert(nodes@.subrange(0, nodes.len() as int) =~= nodes@);
    }
    Ok(issues)
}

/// Where the first nodes fail, all the nodes fail in the same way.
pub proof fn lemma_issues_fail_on(nodes: Seq<Json>, upto: int)
    requires
        0 <= upto <= nodes.len(),
    ensures
        issues_of(nodes.subrange(0, upto)) matches Err(failure) ==> issues_of(nodes) == Err::<
            Seq<Option<IssueText>>,
            FailureText,
        >(failure),
    decreases nodes.len() - upto,
{
    if upto == nodes.len() {
        assert(nodes.subrange(0, upto) =~= nodes);
    } else {
        let longer = nodes.subrange(0, upto + 1);
        assert(longer.drop_last() =~= nodes.subrange(0, upto));
        lemma_issues_fail_on(nodes, upto + 1);
    }
}

/// Reads what the pages show of the repository out of a decoded document.
pub fn read_repository(document: &Json) -> (r: Result<Repository, Failure>)
    ensures
        reading_text(r) == repository_of(*document),
{
    let data = match get_present(document, "data") {
        None => {
            return Err(Failure::missing("response", "data"));
        },
        Some(data) => data,
    };
    let repository = match get_present(data, "repository") {
        None => {
            return Err(Failure::missing("data", "repository"));
        },
        Some(repository) => repository,
    };
    let stars = match read_count(repository, "repository", "stargazers") {
        Err(failure) => {
            return Err(failure);
        },
        Ok(stars) => stars,
    };
    let issues = match get_present(repository, "issues") {
        None => {
            return Err(Failure::missing("repository", "issues"));
        },
        Some(issues) => issues,
    };
    match get_present(issues, "nodes") {
        None => Err(Failure::missing("issues", "nodes")),
        Some(Json::Array(nodes)) => match read_issues(nodes) {
            Err(failure) => Err(failure),
            Ok(issues) => Ok(Repository { stars, issues }),
        },
        Some(_) => Err(Failure::mismatch("nodes", "is not a list")),
    }
}

/// Reads the repository out of an answer of the API.
pub fn read_answer(response: OutboundResponse) -> (r: Result<Repository, Failure>)
    ensures
        reading_text(r) == answered(response.status, response.body@),
{
    if response.status != 200 {
        return Err(
            Failure::Upstream {
                subject: "GitHub query".to_owned(),
                status: response.status,
                body: response.body,
            },
        );
    }
    let document = match Json::decode(response.body.as_slice()) {
        Err(failure) => {
            return Err(failure);
        },
        Ok(document) => document,
    };
    if get_present(&document, "errors").is_some() {
        return Err(Failure::ResponseErrors(response.body));
    }
    read_repository(&document)
}

/// One row of the table of issues; an issue that the answer left out has
/// none.
pub open spec fn row_markup(issue: Option<IssueText>) -> Seq<char> {
    match issue {
        Some(i) => element_markup(
            "tr"@,
            Seq::empty(),
            element_markup("td"@, Seq::empty(), escaped(i.title)) + element_markup(
                "td"@,
                Seq::empty(),
                decimal_text(i.comments),
            ),
        ),
        None => Seq::empty(),
    }
}

/// The rows of the table of issues, in order.
pub open spec fn rows_markup(issues: Seq<Option<IssueText>>) -> Seq<char>
    decreases issues.len(),
{
    if issues.len() == 0 {
        Seq::empty()
    } else {
        rows_markup(issues.drop_last()) + row_markup(issues.last())
    }
}

/// What the heading of the page of a repository says: the owner, the name
/// and the stars, each text escaped.
pub open spec fn heading_text(owner: Seq<char>, name: Seq<char>, stars: int) -> Seq<char> {
    escaped(owner) + escaped("/"@) + escaped(name) + escaped(" - \u{1F31F} "@) + decimal_text(
        stars,
    )
}

/// The page of a repository: a heading with the owner, the name and the
/// stars, and a table of the open issues with their comments.
pub open spec fn repo_markup(owner: Seq<char>, name: Seq<char>, repository: RepositoryText) -> Seq<
    char,
> {
    element_markup(
        "div"@,
        Seq::empty(),
        element_markup(
            "h1"@,
            Seq::empty(),
            heading_text(owner, name, repository.stars),
        ) + element_markup(
            "table"@,
            Seq::empty().push(("class"@, "fui-table"@)),
            element_markup(
                "tr"@,
                Seq::empty(),
                element_markup("th"@, Seq::empty(), escaped("Title"@)) + element_markup(
                    "th"@,
                    Seq::empty(),
                    escaped("Comments"@),
                ),
            ) + rows_markup(repository.issues),
        ),
    )
}

/// The root page: a heading and a link to one repository.
pub open spec fn root_markup() -> Seq<char> {
    element_markup(
        "div"@,
        Seq::empty(),
        element_markup("h1"@, Seq::empty(), escaped("Repo Viewer"@)) + element_markup(
            "a"@,
            Seq::empty().push(("href"@, "/view/CraneStation/cranelift"@)).push(
                ("class"@, "button primary"@),
            ).push(("style"@, "margin-top: 20px;"@)),
            escaped("View CraneStation/cranelift"@),
        ),
    )
}

/// The page that is shown in place of every page as long as no token is set.
pub open spec fn unconfigured_markup() -> Seq<char> {
    element_markup(
        "div"@,
        Seq::empty(),
        element_markup(
            "p"@,
            Seq::empty(),
            escaped("Error: must set a valid GitHub API token before compiling."@),
        ),
    )
}

/// A number as element content.
fn number(n: i64) -> (fragment: Fragment)
    ensures
        fragment@ == decimal_text(n as int),
{
    let mut markup = String::new();
    push_decimal(&mut markup, n);
    Fragment::raw(markup)
}

/// Renders the root page.
pub fn root_page() -> (page: Fragment)
    ensures
        page@ == root_markup(),
{
    let heading = Fragment::element("h1", &no_pairs(), &Fragment::text("Repo Viewer"));
    let link = Fragment::element(
        "a",
        &with_pair(
            with_pair(
                with_pair(no_pairs(), "href", "/view/CraneStation/cranelift"),
                "class",
                "button primary",
            ),
            "style",
            "margin-top: 20px;",
        ),
        &Fragment::text("View CraneStation/cranelift"),
    );
    Fragment::element("div", &no_pairs(), &heading.followed_by(&link))
}

/// Renders the page that is shown as long as no token is set.
pub fn unconfigured_page() -> (page: Fragment)
    ensures
        page@ == unconfigured_markup(),
{
    let sentence = Fragment::element(
        "p",
        &no_pairs(),
        &Fragment::text("Error: must set a valid GitHub API token before compiling."),
    );
    Fragment::element("div", &no_pairs(), &sentence)
}

/// Renders the page of the repository `name` of `owner`. The owner, the name
/// and the titles of the issues are escaped.
pub fn repo_page(owner: &str, name: &str, repository: &Repository) -> (page: Fragment)
    ensures
        page@ == repo_markup(owner@, name@, repository@),
{
    let title = Fragment::text(owner).followed_by(&Fragment::text("/")).followed_by(
        &Fragment::text(name),
    ).followed_by(&Fragment::text(" - \u{1F31F} ")).followed_by(&number(repository.stars));
    let heading = Fragment::element("h1", &no_pairs(), &title);
    let columns = Fragment::element(
        "tr",
        &no_pairs(),
        &Fragment::element("th", &no_pairs(), &Fragment::text("Title")).followed_by(
            &Fragment::element("th", &no_pairs(), &Fragment::text("Comments")),
        ),
    );
    let mut rows = Fragment::empty();
    let mut i: usize = 0;
    let ghost issues = issues_text(repository.issues@);
    while i < repository.issues.len()
        invariant
            0 <= i <= repository.issues.len(),
            issues == issues_text(repository.issues@),
            rows@ == rows_markup(issues.subrange(0, i as int)),
        decreases repository.issues.len() - i,
    {
        proof {
            let done = issues.subrange(0, i + 1);
            assert(done.drop_last() =~= issues.subrange(0, i as int));
        }
        match &repository.issues[i] {
            Some(issue) => {
                let row = Fragment::element(
                    "tr",
                    &no_pairs(),
                    &Fragment::element(
                        "td",
                        &no_pairs(),
                        &Fragment::text(issue.title.as_str()),
                    ).followed_by(&Fragment::element("td", &no_pairs(), &number(issue.comments))),
                );
                rows = rows.followed_by(&row);
            },
            None => {},
        }
        i += 1;
    }
    proof {
        assert(issues.subrange(0, repository.issues.len() as int) =~= issues);
    }
    let table = Fragment::element(
        "table",
        &with_pair(no_pairs(), "class", "fui-table"),
        &columns.followed_by(&rows),
    );
    Fragment::element("div", &no_pairs(), &heading.followed_by(&table))
}

/// What the page of a repository waits with: whose repository it is, and the
/// call.
#[derive(Debug)]
pub struct Stage {
    pub owner: String,
    pub name: String,
    pub pending: PendingCall,
}

/// Whether `progress` ends in this failure.
pub open spec fn fails_with(progress: Progress<Stage>, failure: FailureText) -> bool {
    progress matches Progress::Finished(Outcome::Failed(f)) && f@ == failure
}

/// Whether `progress` ends in a page with this markup.
pub open spec fn shows(progress: Progress<Stage>, markup: Seq<char>) -> bool {
    progress matches Progress::Finished(Outcome::Page(page)) && page@ == markup
}

/// Whether `progress` is where the page of the repository `name` of `owner`
/// stands once it has begun: its one call is issued, with the query as the
/// body and the token in the headers.
pub open spec fn repo_begun(
    token: Seq<char>,
    owner: Seq<char>,
    name: Seq<char>,
    before: CallBoard,
    after: CallBoard,
    progress: Progress<Stage>,
) -> bool {
    match repo_query_bytes(owner, name) {
        Some(body) => if api_accepted() {
            &&& progress matches Progress::Waiting(call, stage)
            &&& call == stage.pending
            &&& stage.pending.id == before.issued.len()
            &&& stage.owner@ == owner
            &&& stage.name@ == name
            &&& after.issued_text() == before.issued_text().push(repo_request(token, body))
        } else {
            &&& fails_with(progress, FailureText::Call(CallError::Malformed))
            &&& after.issued == before.issued
        },
        None => {
            &&& fails_with(progress, FailureText::Call(CallError::Malformed))
            &&& after.issued == before.issued
        },
    }
}

/// Whether `progress` is where the page of a repository stands once its call
/// was joined with `joined`.
pub open spec fn resumed(
    stage: Stage,
    joined: Result<OutboundResponse, CallError>,
    progress: Progress<Stage>,
) -> bool {
    match observed(joined) {
        Ok(repository) => shows(progress, repo_markup(stage.owner@, stage.name@, repository)),
        Err(failure) => fails_with(progress, failure),
    }
}

/// The pattern of the page of a repository: the whole path is `/view/`, an
/// owner, `/` and a name, each one or more characters other than `/`.
pub open spec fn view_pattern() -> Seq<char> {
    "^/view/([^/]+)/([^/]+)$"@
}

/// The token that stands for no token.
pub open spec fn no_token() -> Seq<char> {
    "YOUR_TOKEN_HERE"@
}

/// The repository viewer: its routes, its document shell and its API token.
pub struct Github {
    pub router: Router,
    pub shell: Shell,
    pub token: String,
}

impl Github {
    /// Whether the application is as `new` makes it: the repository template
    /// first, the root path second, and the shell without a picture.
    pub open spec fn wf(self) -> bool {
        &&& self.router.patterns.len() == 2
        &&& self.router.patterns[0] matches Pattern::Template { engine, declared } && declared
            == 2 && regex_source(engine) == view_pattern()
        &&& self.router.patterns[1] matches Pattern::Exact(literal) && literal@ == "/"@
        &&& self.shell.image_text() is None
        &&& self.shell.failure_prefix@ == "GitHub GraphQL demo error: "@
    }

    /// Whether `progress` is where the handling of `path` stands once it has
    /// begun. A path that matches no pattern is not found, whatever the token
    /// is; as long as no token is set, every page shows the same sentence.
    pub open spec fn begun(
        self,
        path: Seq<char>,
        before: CallBoard,
        after: CallBoard,
        progress: Progress<Stage>,
    ) -> bool {
        match self.router.patterns[0].matching(path) {
            Matching::Broken => {
                &&& fails_with(progress, FailureText::RouteCapture)
                &&& after.issued == before.issued
            },
            Matching::Hit(captured) => if self.token@ == no_token() {
                &&& shows(progress, unconfigured_markup())
                &&& after.issued == before.issued
            } else {
                repo_begun(self.token@, captured[0], captured[1], before, after, progress)
            },
            Matching::Miss => if path != "/"@ {
                &&& progress matches Progress::Finished(Outcome::NotFound)
                &&& after.issued == before.issued
            } else if self.token@ == no_token() {
                &&& shows(progress, unconfigured_markup())
                &&& after.issued == before.issued
            } else {
                &&& shows(progress, root_markup())
                &&& after.issued == before.issued
            },
        }
    }

    /// Builds the application with this API token. Fails exactly where the
    /// pattern engine refuses the repository pattern.
    pub fn new(token: &str) -> (r: Option<Github>)
        ensures
            r is Some == regex_accepts(view_pattern()),
            r matches Some(github) ==> github.wf() && github.token@ == token@,
    {
        match Pattern::template("^/view/([^/]+)/([^/]+)$", 2) {
            None => None,
            Some(template) => {
                let mut patterns: Vec<Pattern> = Vec::new();
                patterns.push(template);
                patterns.push(Pattern::exact("/"));
                Some(
                    Github {
                        router: Router::new(patterns),
                        shell: Shell {
                            image: None,
                            failure_prefix: "GitHub GraphQL demo error: ".to_owned(),
                        },
                        token: token.to_owned(),
                    },
                )
            },
        }
    }

    /// Begins the page of the repository `name` of `owner`: writes the query
    /// and issues the call that carries it. Nothing is waited for.
    pub fn repo_info(&self, owner: &str, name: &str, board: &mut CallBoard) -> (progress: Progress<
        Stage,
    >)
        ensures
            final(board).joined == old(board).joined,
            repo_begun(self.token@, owner@, name@, *old(board), *final(board), progress),
    {
        let variables = with_pair(with_pair(no_pairs(), "owner", owner), "name", name);
        let body = match serialize_query(
            "query RepoView($owner: String!, $name: String!) { repository(owner: $owner, name: $name) { stargazers { totalCount } issues(first: 20, states: OPEN) { nodes { title comments { totalCount } } } } }",
            "RepoView",
            &variables,
        ) {
            Ok(body) => body,
            Err(_) => {
                return Progress::Finished(Outcome::Failed(Failure::Call(CallError::Malformed)));
            },
        };
        let mut bearer = "Bearer ".to_owned();
        bearer.append(self.token.as_str());
        let request = OutboundRequest {
            method: "POST".to_owned(),
            uri: "https://api.github.com/graphql".to_owned(),
            headers: with_pair(no_pairs(), "authorization", bearer.as_str()),
            body,
        };
        match board.issue(request) {
            Ok(pending) => {
                proof {
                    assert(board.issued_text() =~= old(board).issued_text().push(
                        repo_request(self.token@, body@),
                    ));
                }
                Progress::Waiting(
                    pending,
                    Stage { owner: owner.to_owned(), name: name.to_owned(), pending },
                )
            },
            Err(error) => Progress::Finished(Outcome::Failed(Failure::Call(error))),
        }
    }

    /// Routes the request by its path and begins the page: the page of a
    /// repository where the template matches, the root page for `/`, and
    /// nothing for any other path.
    pub fn server(&self, request: &InboundRequest, board: &mut CallBoard) -> (progress: Progress<
        Stage,
    >)
        requires
            self.wf(),
        ensures
            final(board).joined == old(board).joined,
            self.begun(request.path@, *old(board), *final(board), progress),
    {
        match self.router.route(request.path.as_str()) {
            Err(failure) => Progress::Finished(Outcome::Failed(failure)),
            Ok(None) => Progress::Finished(Outcome::NotFound),
            Ok(Some(found)) => {
                if self.token.as_str().eq("YOUR_TOKEN_HERE") {
                    Progress::Finished(Outcome::Page(unconfigured_page()))
                } else if found.route == 0 {
                    proof {
                        let captured = params_text(found.params@);
                        assert(captured.len() == 2);
                    }
                    self.repo_info(found.params[0].as_str(), found.params[1].as_str(), board)
                } else {
                    Progress::Finished(Outcome::Page(root_page()))
                }
            },
        }
    }

    /// Resumes the page of a repository with the outcome of its call.
    pub fn resume(
        stage: Stage,
        outcome: Result<OutboundResponse, CallError>,
        board: &mut CallBoard,
    ) -> (progress: Progress<Stage>)
        ensures
            final(board).issued == old(board).issued,
            !final(board).is_pending(stage.pending),
            old(board).is_pending(stage.pending) ==> final(board).joined@ == old(board).joined@.push(stage.pending.id),
            !old(board).is_pending(stage.pending) ==> final(board).joined == old(board).joined,
            resumed(stage, old(board).join_result(stage.pending, outcome), progress),
    {
        let response = match board.join(stage.pending, outcome) {
            Ok(response) => response,
            Err(error) => {
                return Progress::Finished(Outcome::Failed(Failure::Call(error)));
            },
        };
        match read_answer(response) {
            Ok(repository) => Progress::Finished(
                Outcome::Page(repo_page(stage.owner.as_str(), stage.name.as_str(), &repository)),
            ),
            Err(failure) => Progress::Finished(Outcome::Failed(failure)),
        }
    }

    /// Handles a request up to its wait or to its response. A path that
    /// matches no pattern is answered with an empty 404, whatever the token
    /// is, and nothing is issued for it.
    pub fn enter(&self, request: &InboundRequest, board: &mut CallBoard) -> (step: Step<Stage>)
        requires
            self.wf(),
        ensures
            final(board).joined == old(board).joined,
            exists|progress: Progress<Stage>|
                self.begun(request.path@, *old(board), *final(board), progress)
                    && self.shell.settled(progress, step),
            step matches Step::Join(call, stage) ==> {
                &&& call == stage.pending
                &&& call.id == old(board).issued.len()
                &&& final(board).knows(call)
            },
            self.router.misses(request.path@) ==> {
                &&& step matches Step::Respond(response)
                &&& response.status == 404
                &&& response.headers@.len() == 0
                &&& response.body@.len() == 0
                &&& final(board).issued == old(board).issued
            },
    {
        let progress = self.server(request, board);
        proof {
            assert(board.issued_text().len() == board.issued@.len());
            assert(old(board).issued_text().len() == old(board).issued@.len());
        }
        self.shell.settle(progress)
    }

    /// Handles a request from the outcome of its call up to its response.
    /// Whatever fails, the response says so with status 500.
    pub fn proceed(
        &self,
        stage: Stage,
        outcome: Result<OutboundResponse, CallError>,
        board: &mut CallBoard,
    ) -> (step: Step<Stage>)
        ensures
            final(board).issued == old(board).issued,
            !final(board).is_pending(stage.pending),
            old(board).is_pending(stage.pending) ==> final(board).joined@ == old(board).joined@.push(stage.pending.id),
            !old(board).is_pending(stage.pending) ==> final(board).joined == old(board).joined,
            exists|progress: Progress<Stage>|
                resumed(stage, old(board).join_result(stage.pending, outcome), progress)
                    && self.shell.settled(progress, step),
            step matches Step::Join(call, next) ==> call == next.pending,
    {
        let progress = Github::resume(stage, outcome, board);
        self.shell.settle(progress)
    }
}

/// Two answers with the same status and the same body say the same of the
/// repository: nothing else of an answer is read.
pub proof fn lemma_same_answer_same_reading(first: OutboundResponse, second: OutboundResponse)
    requires
        first.status == second.status,
        first.body@ == second.body@,
    ensures
        observed(Ok(first)) == observed(Ok(second)),
{
}

/// A stage resumed twice with the same joined call renders the same page,
/// character for character.
pub proof fn lemma_same_call_same_page(
    stage: Stage,
    joined: Result<OutboundResponse, CallError>,
    first: Progress<Stage>,
    second: Progress<Stage>,
)
    requires
        resumed(stage, joined, first),
        resumed(stage, joined, second),
        first matches Progress::Finished(Outcome::Page(_)),
    ensures
        first matches Progress::Finished(Outcome::Page(one)) && second matches Progress::Finished(
            Outcome::Page(other),
        ) && one@ == other@,
{
}

/// An answer with a status other than 200 fails the page, and what the
/// failure says holds the status as a decimal numeral.
pub proof fn lemma_unexpected_status_is_named(response: OutboundResponse)
    requires
        response.status != 200,
    ensures
        observed(Ok(response)) matches Err(failure) && occurs_in(
            decimal_text(response.status as int),
            failure.description_text(),
        ),
{
    lemma_upstream_description_names_status("GitHub query"@, response.status, response.body@);
}

/// What the page of a repository says between its own tags holds no `<`,
/// `>` or `"`, whatever the path gave as the owner and the name and whatever
/// the upstream wrote as the title of an issue.
pub proof fn lemma_repo_texts_are_inert(
    owner: Seq<char>,
    name: Seq<char>,
    stars: int,
    issue: IssueText,
)
    ensures
        is_inert(heading_text(owner, name, stars)),
        is_inert(escaped(issue.title)),
        is_inert(decimal_text(issue.comments)),
{
    lemma_escaped_is_inert(owner);
    lemma_escaped_is_inert("/"@);
    lemma_escaped_is_inert(name);
    lemma_escaped_is_inert(" - \u{1F31F} "@);
    lemma_escaped_is_inert(issue.title);
    lemma_decimal_is_inert(stars);
    lemma_decimal_is_inert(issue.comments);
    let a = escaped(owner);
    let b = escaped("/"@);
    let c = escaped(name);
    let d = escaped(" - \u{1F31F} "@);
    lemma_inert_concat(a, b);
    lemma_inert_concat(a + b, c);
    lemma_inert_concat(a + b + c, d);
    lemma_inert_concat(a + b + c + d, decimal_text(stars));
}

} // verus!
