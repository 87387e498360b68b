use guest_pages::failure::Failure;
use guest_pages::router::{extract_captures, Pattern, Router};

fn router() -> Router {
    Router::new(vec![
        Pattern::template("^/user/([0-9]+)$", 1).expect("a pattern"),
        Pattern::exact("/"),
        Pattern::template("/(a+)(b)?", 1).expect("a pattern"),
        Pattern::template("/(x)(y)?z", 2).expect("a pattern"),
        Pattern::exact("/user/7"),
    ])
}

fn some(text: &str) -> Option<String> {
    Some(text.to_string())
}

#[test]
fn first_match_wins() {
    let found = router().route("/user/7").unwrap().unwrap();
    assert_eq!(found.route, 0);
    assert_eq!(found.params, vec!["7".to_string()]);
}

#[test]
fn exact_pattern_matches_the_whole_path_only() {
    let router = router();
    let found = router.route("/").unwrap().unwrap();
    assert_eq!(found.route, 1);
    assert!(found.params.is_empty());
    assert!(router.route("//").unwrap().is_none());
    assert!(router.route("").unwrap().is_none());
}

#[test]
fn template_hands_over_its_declared_captures() {
    let found = router().route("/aaab").unwrap().unwrap();
    assert_eq!(found.route, 2);
    assert_eq!(found.params, vec!["aaa".to_string()]);
}

#[test]
fn no_match_is_no_route() {
    assert!(router().route("/nothing").unwrap().is_none());
    assert!(Router::new(Vec::new()).route("/").unwrap().is_none());
}

#[test]
fn match_without_a_declared_capture_is_a_failure_of_the_router() {
    assert!(matches!(router().route("/xz"), Err(Failure::RouteCapture)));
    let found = router().route("/xyz").unwrap().unwrap();
    assert_eq!(found.route, 3);
    assert_eq!(found.params, vec!["x".to_string(), "y".to_string()]);
}

#[test]
fn template_that_declares_more_groups_than_it_has_fails_on_a_match() {
    let router = Router::new(vec![Pattern::template("/(a)", 2).expect("a pattern")]);
    assert!(matches!(router.route("/a"), Err(Failure::RouteCapture)));
    assert!(router.route("/b").unwrap().is_none());
}

#[test]
fn pattern_that_the_engine_refuses_is_no_template() {
    assert!(Pattern::template("/(unclosed", 1).is_none());
    assert!(Pattern::template("", 0).is_some());
}

#[test]
fn captures_are_read_by_position() {
    assert!(matches!(extract_captures(2, None), Ok(None)));
    assert_eq!(
        extract_captures(2, Some(vec![some("/a/b"), some("a"), some("b")])).unwrap(),
        Some(vec!["a".to_string(), "b".to_string()])
    );
    assert_eq!(
        extract_captures(1, Some(vec![some("/a/b"), some("a"), None])).unwrap(),
        Some(vec!["a".to_string()])
    );
    assert_eq!(extract_captures(0, Some(vec![None])).unwrap(), Some(Vec::new()));
    assert!(matches!(
        extract_captures(2, Some(vec![some("/a"), some("a"), None])),
        Err(Failure::RouteCapture)
    ));
    assert!(matches!(
        extract_captures(2, Some(vec![some("/a"), some("a")])),
        Err(Failure::RouteCapture)
    ));
    assert!(matches!(extract_captures(0, Some(Vec::new())), Err(Failure::RouteCapture)));
    assert!(matches!(
        extract_captures(usize::MAX, Some(vec![some("a")])),
        Err(Failure::RouteCapture)
    ));
}
