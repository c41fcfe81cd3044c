//! Matching of object keys and derivation of the target key they belong to.

use crate::error::{ConcatError, ErrorKind};
use regex::Regex;
use vstd::prelude::*;
use vstd::std_specs::convert::FromSpecImpl;
use vstd::string::to_string_from_display_ensures;

verus! {

/// `regex::Regex`, carried as an opaque value.
#[verifier::external_type_specification]
#[verifier::external_body]
pub struct ExRegex(regex::Regex);

/// `regex::Error`, carried as an opaque value.
#[verifier::external_type_specification]
#[verifier::external_body]
pub struct ExRegexError(regex::Error);

/// The expression text that a compiled `regex::Regex` was built from.
pub uninterp spec fn regex_source(re: Regex) -> Seq<char>;

/// Whether `regex::Regex::new` accepts the expression text.
pub uninterp spec fn regex_compiles(source: Seq<char>) -> bool;

/// Whether the expression `source` matches anywhere in `text`, as
/// `regex::Regex::is_match` decides it.
pub uninterp spec fn regex_matches(source: Seq<char>, text: Seq<char>) -> bool;

/// The text that `regex::Regex::replace_all` yields when every match of
/// `source` in `text` is replaced by the expansion of `template`.
pub uninterp spec fn regex_replaced(source: Seq<char>, text: Seq<char>, template: Seq<char>) -> Seq<
    char,
>;

/// Calls `regex::Regex::new`. Trusted: the call succeeds exactly on the
/// expressions that `regex_compiles` names, and the compiled value keeps the
/// expression text it was given (`Regex::as_str` returns it).
#[verifier::external_body]
fn compile(source: &str) -> (r: Result<Regex, regex::Error>)
    ensures
        r.is_ok() == regex_compiles(source@),
        r.is_ok() ==> regex_source(r.unwrap()) == source@,
{
    Regex::new(source)
}

/// Calls `regex::Regex::is_match`. Trusted: the answer is the one that
/// `regex_matches` names for the expression text and the searched text.
#[verifier::external_body]
fn search(re: &Regex, text: &str) -> (r: bool)
    ensures
        r == regex_matches(regex_source(*re), text@),
{
    re.is_match(text)
}

/// Calls `regex::Regex::replace_all` with a string template. Trusted: the
/// text returned is the one that `regex_replaced` names.
#[verifier::external_body]
fn substitute(re: &Regex, text: &str, template: &str) -> (r: String)
    ensures
        r@ == regex_replaced(regex_source(*re), text@, template@),
{
    re.replace_all(text, template).into_owned()
}

/// An expression that does not compile is a configuration error with the
/// text that the compiler's error displays as.
impl From<regex::Error> for ConcatError {
    fn from(t: regex::Error) -> (r: ConcatError)
        ensures
            r.kind == ErrorKind::Configuration,
            to_string_from_display_ensures::<regex::Error>(&t, r.message),
    {
        ConcatError { kind: ErrorKind::Configuration, message: t.to_string() }
    }
}

impl FromSpecImpl<regex::Error> for ConcatError {
    open spec fn obeys_from_spec() -> bool {
        false
    }

    open spec fn from_spec(t: regex::Error) -> ConcatError {
        arbitrary()
    }
}

/// A compiled match expression over keys together with the template that
/// names the target of each matching key.
pub struct Pattern {
    pub matcher: Regex,
    pub template: String,
}

/// What a pattern makes of one key.
#[derive(Debug)]
pub enum Resolution {
    /// The key does not match.
    NoMatch,
    /// The key matches and resolves to itself: it is never concatenated.
    SelfTarget,
    /// The key matches and belongs to the target given.
    Target(String),
}

/// The resolution of `key` once the matcher's answer and the substituted
/// text are known.
pub open spec fn resolution_of(matched: bool, replaced: Seq<char>, key: Seq<char>) -> Option<
    Seq<char>,
> {
    if matched && replaced != key {
        Some(replaced)
    } else {
        None
    }
}

impl Resolution {
    /// The target that the key joins, if it joins one.
    pub open spec fn target(self) -> Option<Seq<char>> {
        match self {
            Resolution::Target(t) => Some(t@),
            _ => None,
        }
    }
}

impl Pattern {
    /// The expression text of the pattern.
    pub open spec fn source(&self) -> Seq<char> {
        regex_source(self.matcher)
    }

    /// Whether the pattern matches `key`.
    pub open spec fn matches(&self, key: Seq<char>) -> bool {
        regex_matches(self.source(), key)
    }

    /// The template applied to `key`.
    pub open spec fn target_of(&self, key: Seq<char>) -> Seq<char> {
        regex_replaced(self.source(), key, self.template@)
    }

    /// Compiles `source`. An expression that does not compile is a
    /// configuration error.
    pub fn new(source: &str, template: &str) -> (r: Result<Pattern, ConcatError>)
        ensures
            r.is_ok() == regex_compiles(source@),
            r matches Ok(p) ==> p.source() == source@ && p.template@ == template@,
            r matches Err(e) ==> e.kind == ErrorKind::Configuration,
    {
        match compile(source) {
            Ok(matcher) => Ok(Pattern { matcher, template: template.to_owned() }),
            Err(err) => Err(ConcatError::from(err)),
        }
    }

    /// Whether `key` matches the pattern.
    pub fn is_match(&self, key: &str) -> (r: bool)
        ensures
            r == self.matches(key@),
    {
        search(&self.matcher, key)
    }

    /// The target key that the template gives for `key`.
    pub fn target_for(&self, key: &str) -> (r: String)
        ensures
            r@ == self.target_of(key@),
    {
        substitute(&self.matcher, key, self.template.as_str())
    }

    /// Classifies `key`: no match, a match onto itself, or a match with the
    /// target it resolves to.
    pub fn resolve(&self, key: &str) -> (r: Resolution)
        ensures
            r is NoMatch <==> !self.matches(key@),
            r is SelfTarget <==> self.matches(key@) && self.target_of(key@) == key@,
            r.target() == resolution_of(self.matches(key@), self.target_of(key@), key@),
    {
        if !self.is_match(key) {
            return Resolution::NoMatch;
        }
        let target = self.target_for(key);
        judge(target, key)
    }
}

/// Decides what a matching key belongs to, given the text that the template
/// produced for it.
pub fn judge(target: String, key: &str) -> (r: Resolution)
    ensures
        r.target() == resolution_of(true, target@, key@),
        target@ == key@ <==> r is SelfTarget,
        !(r is NoMatch),
{
    let own = key.to_owned();
    if target == own {
        Resolution::SelfTarget
    } else {
        Resolution::Target(target)
    }
}

} // verus!
