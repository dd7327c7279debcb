//! The feed locators that the program is started with.

use vstd::prelude::*;

verus! {

/// `url::ParseError`, the reason that `url::Url::parse` gives for refusing a
/// string. Nothing is read from it.
#[verifier::external_type_specification]
#[verifier::external_body]
pub struct ExParseError(url::ParseError);

/// What `url::Url::parse` makes of `input`: the serialization of the URL
/// that it reads, or `None` where `input` is no absolute URL.
pub uninterp spec fn normal_form(input: Seq<char>) -> Option<Seq<char>>;

/// Parses `input` with `url::Url::parse` and returns the serialization of
/// the URL, which is what `Url::as_str` gives. The contract names the
/// result; it depends on `input` alone.
#[verifier::external_body]
fn parse_url(input: &str) -> (parsed: Result<String, url::ParseError>)
    ensures
        parsed.is_ok() == normal_form(input@).is_some(),
        parsed matches Ok(url) ==> normal_form(input@) == Some(url@),
{
    url::Url::parse(input).map(String::from)
}

/// Why the program cannot start.
#[derive(Clone, Copy, Debug, PartialEq, Eq, Structural)]
pub enum ConfigError {
    /// The locator at `position`, counted from zero over the arguments and
    /// then the environment, is not a well-formed URL.
    InvalidLocator { position: usize },
    /// No locator was given at all.
    NoFeed,
}

/// The locators in the order in which they are used: those of the command
/// line first, then the one of the environment, if there is one.
pub open spec fn candidates(arguments: Seq<String>, environment: Option<String>) -> Seq<
    Seq<char>,
> {
    let given = arguments.map_values(|s: String| s@);
    match environment {
        Some(locator) => given.push(locator@),
        None => given,
    }
}

/// What `url::Url::parse` makes of each of `candidates`.
pub open spec fn normal_forms(candidates: Seq<Seq<char>>) -> Seq<Option<Seq<char>>> {
    candidates.map_values(|c: Seq<char>| normal_form(c))
}

/// Whether `outcome` is what becomes of the candidates whose parsed forms
/// are `parsed`: the first one that did not parse is reported, an empty list
/// is an error of its own, and otherwise the parsed forms are the feeds.
pub open spec fn selects(
    parsed: Seq<Option<Seq<char>>>,
    outcome: Result<Vec<String>, ConfigError>,
) -> bool {
    match outcome {
        Ok(feeds) => {
            &&& parsed.len() > 0
            &&& feeds@.len() == parsed.len()
            &&& forall|i: int| 0 <= i < parsed.len() ==> parsed[i] == Some(#[trigger] feeds@[i]@)
        },
        Err(ConfigError::InvalidLocator { position }) => {
            &&& position < parsed.len()
            &&& parsed[position as int] is None
            &&& forall|j: int| 0 <= j < position ==> (#[trigger] parsed[j]) is Some
        },
        Err(ConfigError::NoFeed) => parsed.len() == 0,
    }
}

/// The views of parsed locators.
pub open spec fn parsed_views(parsed: Seq<Option<String>>) -> Seq<Option<Seq<char>>> {
    parsed.map_values(
        |p: Option<String>|
            match p {
                Some(url) => Some(url@),
                None => None,
            },
    )
}

/// Turns the parsed forms of the candidates, `None` standing for one that
/// did not parse, into the working set of feeds or the reason why there is
/// none.
pub fn select_feeds(parsed: &Vec<Option<String>>) -> (outcome: Result<Vec<String>, ConfigError>)
    ensures
        selects(parsed_views(parsed@), outcome),
{
    if parsed.len() == 0 {
        return Err(ConfigError::NoFeed);
    }
    let ghost views = parsed_views(parsed@);
    let mut feeds: Vec<String> = Vec::new();
    let mut i: usize = 0;
    while i < parsed.len()
        invariant
            i <= parsed.len(),
            views == parsed_views(parsed@),
            feeds@.len() == i,
            forall|j: int| 0 <= j < i ==> views[j] == Some(#[trigger] feeds@[j]@),
        decreases parsed.len() - i,
    {
        match &parsed[i] {
            Some(url) => {
                feeds.push(url.clone());
            },
            None => {
                assert forall|j: int| 0 <= j < i implies (#[trigger] views[j]) is Some by {
                    assert(views[j] == Some(feeds@[j]@));
                }
                return Err(ConfigError::InvalidLocator { position: i });
            },
        }
        i = i + 1;
    }
    Ok(feeds)
}

/// The feeds to monitor: the locators given on the command line and the one
/// given by the environment, each in the form in which the URL parser
/// writes it back. A locator that is no well-formed URL, or the want of any
/// locator, is an error.
pub fn feed_locators(arguments: &Vec<String>, environment: Option<String>) -> (outcome: Result<
    Vec<String>,
    ConfigError,
>)
    ensures
        selects(normal_forms(candidates(arguments@, environment)), outcome),
{
    let ghost wanted = candidates(arguments@, environment);
    let mut parsed: Vec<Option<String>> = Vec::new();
    assert(parsed_views(parsed@) =~= normal_forms(wanted.take(0)));
    let mut i: usize = 0;
    while i < arguments.len()
        invariant
            i <= arguments.len(),
            wanted == candidates(arguments@, environment),
            parsed_views(parsed@) == normal_forms(wanted.take(i as int)),
        decreases arguments.len() - i,
    {
        push_parsed(&mut parsed, arguments[i].as_str());
        assert(normal_forms(wanted.take(i + 1)) =~= normal_forms(wanted.take(i as int)).push(
            normal_form(wanted[i as int]),
        ));
        i = i + 1;
    }
    match &environment {
        Some(locator) => {
            push_parsed(&mut parsed, locator.as_str());
        },
        None => {},
    }
    assert(parsed_views(parsed@) =~= normal_forms(wanted));
    select_feeds(&parsed)
}

/// Parses `locator` and puts what came of it at the end of `parsed`.
fn push_parsed(parsed: &mut Vec<Option<String>>, locator: &str)
    ensures
        parsed_views(final(parsed)@) == parsed_views(old(parsed)@).push(normal_form(locator@)),
{
    let found = to_option(parse_url(locator));
    parsed.push(found);
    assert(parsed_views(parsed@) =~= parsed_views(old(parsed)@).push(normal_form(locator@)));
}

/// Drops the parser's reason for a refusal.
fn to_option(parsed: Result<String, url::ParseError>) -> (found: Option<String>)
    ensures
        found.is_some() == parsed.is_ok(),
        found matches Some(url) ==> parsed == Ok::<String, url::ParseError>(url),
{
    match parsed {
        Ok(url) => Some(url),
        Err(_) => None,
    }
}

} // verus!
