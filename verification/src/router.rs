//! Matching a request path against an ordered list of patterns.

use crate::failure::Failure;
use regex::Regex;
use vstd::prelude::*;

verus! {

/// `regex::Regex`, a compiled pattern; nothing inside it is read here.
#[verifier::external_type_specification]
#[verifier::external_body]
pub struct ExRegex(Regex);

/// `regex::Error`, why a pattern was refused; nothing inside it is read here.
#[verifier::external_type_specification]
#[verifier::external_body]
pub struct ExRegexError(regex::Error);

/// Whether `Regex::new` compiles `pattern`.
pub uninterp spec fn regex_accepts(pattern: Seq<char>) -> bool;

/// The pattern that `engine` was compiled from.
pub uninterp spec fn regex_source(engine: Regex) -> Seq<char>;

/// What `Regex::captures` finds in `text`: nothing, or the groups of the
/// leftmost match, the whole match first, a group that took no part as `None`.
pub uninterp spec fn regex_captures(engine: Regex, text: Seq<char>) -> Option<
    Seq<Option<Seq<char>>>,
>;

/// The text of one capture group.
pub open spec fn group_text(group: Option<String>) -> Option<Seq<char>> {
    match group {
        Some(s) => Some(s@),
        None => None,
    }
}

/// The texts of the capture groups of one match.
pub open spec fn groups_text(groups: Seq<Option<String>>) -> Seq<Option<Seq<char>>> {
    Seq::new(groups.len(), |i: int| group_text(groups[i]))
}

/// What an engine handed back, as text.
pub open spec fn found_text(found: Option<Vec<Option<String>>>) -> Option<Seq<Option<Seq<char>>>> {
    match found {
        Some(groups) => Some(groups_text(groups@)),
        None => None,
    }
}

/// Calls `Regex::new`. The engine that comes back answers `as_str` with the
/// pattern it was given.
#[verifier::external_body]
fn compile(pattern: &str) -> (r: Result<Regex, regex::Error>)
    ensures
        r is Ok == regex_accepts(pattern@),
        r is Ok ==> regex_source(r->Ok_0) == pattern@,
{
    Regex::new(pattern)
}

/// Calls `Regex::captures` and copies out the text of each group, in the
/// order of `Captures::iter`.
#[verifier::external_body]
fn captures(engine: &Regex, text: &str) -> (found: Option<Vec<Option<String>>>)
    ensures
        found_text(found) == regex_captures(*engine, text@),
{
    engine.captures(text).map(|c| c.iter().map(|g| g.map(|m| m.as_str().to_owned())).collect())
}

/// One entry of a router: a literal path, or a template with capture groups.
pub enum Pattern {
    /// Matches the path that equals the literal.
    Exact(String),
    /// Matches where the engine finds a match; `declared` is the number of
    /// capture groups whose text the page needs.
    Template { engine: Regex, declared: usize },
}

/// How one pattern fares on one path.
pub enum Matching {
    /// The pattern does not match.
    Miss,
    /// The pattern matches, with these captured parameters.
    Hit(Seq<Seq<char>>),
    /// The template matched and a declared capture is not there.
    Broken,
}

/// Whether the groups that an engine found hold every declared capture.
pub open spec fn captures_complete(declared: nat, groups: Seq<Option<Seq<char>>>) -> bool {
    &&& declared < groups.len()
    &&& forall|k: int| 1 <= k <= declared ==> (#[trigger] groups[k]) is Some
}

/// How a template with `declared` captures fares, given what its engine found.
pub open spec fn template_matching(declared: nat, found: Option<Seq<Option<Seq<char>>>>) -> Matching {
    match found {
        None => Matching::Miss,
        Some(groups) => if captures_complete(declared, groups) {
            Matching::Hit(Seq::new(declared, |k: int| groups[k + 1]->0))
        } else {
            Matching::Broken
        },
    }
}

impl Pattern {
    /// How many parameters a match of this pattern hands over.
    pub open spec fn captures(self) -> nat {
        match self {
            Pattern::Exact(_) => 0,
            Pattern::Template { engine, declared } => declared as nat,
        }
    }

    /// How this pattern fares on `path`.
    pub open spec fn matching(self, path: Seq<char>) -> Matching {
        match self {
            Pattern::Exact(literal) => if literal@ == path {
                Matching::Hit(Seq::empty())
            } else {
                Matching::Miss
            },
            Pattern::Template { engine, declared } => template_matching(
                declared as nat,
                regex_captures(engine, path),
            ),
        }
    }

    /// A pattern that matches `literal` and nothing else.
    pub fn exact(literal: &str) -> (p: Pattern)
        ensures
            p matches Pattern::Exact(l) && l@ == literal@,
    {
        Pattern::Exact(literal.to_owned())
    }

    /// A template that matches what the regular expression `source` finds and
    /// hands the page its first `declared` capture groups. Fails exactly when
    /// the engine does not accept `source`.
    pub fn template(source: &str, declared: usize) -> (r: Option<Pattern>)
        ensures
            r is Some == regex_accepts(source@),
            r matches Some(p) ==> (p matches Pattern::Template { engine, declared: d } && d
                == declared && regex_source(engine) == source@),
    {
        match compile(source) {
            Ok(engine) => Some(Pattern::Template { engine, declared }),
            Err(_) => None,
        }
    }
}

/// The texts of captured parameters.
pub open spec fn params_text(params: Seq<String>) -> Seq<Seq<char>> {
    Seq::new(params.len(), |i: int| params[i]@)
}

/// Reads the declared captures out of what an engine found: no match is no
/// parameters at all, a match with every declared capture gives their texts in
/// order, and a match that lacks one is a failure of the router itself.
pub fn extract_captures(declared: usize, found: Option<Vec<Option<String>>>) -> (r: Result<
    Option<Vec<String>>,
    Failure,
>)
    ensures
        match template_matching(declared as nat, found_text(found)) {
            Matching::Miss => r == Ok::<Option<Vec<String>>, Failure>(None),
            Matching::Hit(texts) => r matches Ok(Some(params)) && params_text(params@) == texts
                && params@.len() == declared,
            Matching::Broken => r == Err::<Option<Vec<String>>, Failure>(Failure::RouteCapture),
        },
{
    let groups = match found {
        None => {
            return Ok(None);
        },
        Some(groups) => groups,
    };
    let ghost texts = groups_text(groups@);
    if groups.len() <= declared {
        return Err(Failure::RouteCapture);
    }
    let mut params: Vec<String> = Vec::new();
    let mut k: usize = 0;
    while k < declared
        invariant
            0 <= k <= declared < groups.len(),
            found == Some(groups),
            texts == groups_text(groups@),
            params.len() == k,
            forall|j: int| 1 <= j <= k ==> (#[trigger] texts[j]) is Some,
            forall|j: int| 0 <= j < k ==> (#[trigger] params[j])@ == texts[j + 1]->0,
        decreases declared - k,
    {
        match &groups[k + 1] {
            Some(text) => {
                params.push(text.clone());
            },
            None => {
                assert(texts[k + 1] is None);
                return Err(Failure::RouteCapture);
            },
        }
        k += 1;
    }
    Ok(Some(params))
}

/// A path that matched: which pattern it was, and what the pattern captured.
pub struct RouteMatch {
    /// The index of the pattern in the router.
    pub route: usize,
    /// The captured parameters, in the order of their groups.
    pub params: Vec<String>,
}

/// An ordered list of patterns; the first that matches wins.
pub struct Router {
    pub patterns: Vec<Pattern>,
}

impl Router {
    /// Whether no pattern before `upto` matches `path`.
    pub open spec fn misses_before(self, path: Seq<char>, upto: int) -> bool {
        forall|j: int| 0 <= j < upto ==> (#[trigger] self.patterns[j]).matching(path) is Miss
    }

    /// Whether no pattern at all matches `path`.
    pub open spec fn misses(self, path: Seq<char>) -> bool {
        self.misses_before(path, self.patterns.len() as int)
    }

    /// A router over `patterns`, tried in this order.
    pub fn new(patterns: Vec<Pattern>) -> (router: Router)
        ensures
            router.patterns == patterns,
    {
        Router { patterns }
    }

    /// Finds the first pattern that matches `path`. `Ok(None)` says that none
    /// does; an error, that the first one that matched lacks a capture.
    pub fn route(&self, path: &str) -> (r: Result<Option<RouteMatch>, Failure>)
        ensures
            match r {
                Ok(None) => self.misses(path@),
                Ok(Some(m)) => {
                    &&& m.route < self.patterns.len()
                    &&& self.misses_before(path@, m.route as int)
                    &&& self.patterns[m.route as int].matching(path@) == Matching::Hit(
                        params_text(m.params@),
                    )
                    &&& m.params@.len() == self.patterns[m.route as int].captures()
                },
                Err(e) => {
                    &&& e == Failure::RouteCapture
                    &&& exists|i: int|
                        0 <= i < self.patterns.len() && self.misses_before(path@, i)
                            && (#[trigger] self.patterns[i]).matching(path@) is Broken
                },
            },
    {
        let mut i: usize = 0;
        while i < self.patterns.len()
            invariant
                0 <= i <= self.patterns.len(),
                self.misses_before(path@, i as int),
            decreases self.patterns.len() - i,
        {
            match &self.patterns[i] {
                Pattern::Exact(literal) => {
                    if literal.as_str().eq(path) {
                        let m = RouteMatch { route: i, params: Vec::new() };
                        assert(params_text(m.params@) =~= Seq::empty());
                        return Ok(Some(m));
                    }
                },
                Pattern::Template { engine, declared } => {
                    let found = captures(engine, path);
                    match extract_captures(*declared, found) {
                        Ok(None) => {},
                        Ok(Some(params)) => {
                            return Ok(Some(RouteMatch { route: i, params }));
                        },
                        Err(_) => {
                            return Err(Failure::RouteCapture);
                        },
                    }
                },
            }
            i += 1;
        }
        Ok(None)
    }
}

} // verus!
