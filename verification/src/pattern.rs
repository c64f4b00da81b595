//! Path patterns: regular expressions that select or exclude files by their
//! full path.

use regex::Regex;
use vstd::prelude::*;

verus! {

/// A compiled regular expression of the `regex` crate.
#[verifier::external_type_specification]
#[verifier::external_body]
pub struct ExRegex(Regex);

/// The error of the `regex` crate for a pattern that does not compile.
#[verifier::external_type_specification]
#[verifier::external_body]
pub struct ExRegexError(regex::Error);

/// Whether `Regex::new` accepts the pattern.
pub uninterp spec fn regex_compiles(pattern: Seq<char>) -> bool;

/// Whether the regular expression `pattern` matches somewhere in `text`, as
/// `Regex::is_match` finds it.
pub uninterp spec fn regex_matches(pattern: Seq<char>, text: Seq<char>) -> bool;

/// A regular expression together with the text that it was compiled from.
/// The only way to make one is [`Pattern::new`], so the two belong together.
pub struct Pattern {
    source: String,
    compiled: Regex,
}

/// A pattern that is no valid regular expression, with the reason as text.
#[derive(Debug)]
pub struct InvalidPattern(pub String);

/// `Regex::new`: compiles the pattern, or fails where it is no valid regular
/// expression or compiles to a program beyond the crate's size limit. Which
/// of the two happens is named [`regex_compiles`].
#[verifier::external_body]
fn compile(source: &str) -> (r: Result<Regex, regex::Error>)
    ensures
        r is Ok <==> regex_compiles(source@),
{
    Regex::new(source)
}

/// `Regex::is_match` on the compiled form of `pattern`: true if and only if
/// the expression matches anywhere in the text. The contract speaks of the
/// pattern's source; it holds because the compiled form was made from that
/// source, which [`Pattern::new`] sees to.
#[verifier::external_body]
fn is_match(pattern: &Pattern, text: &str) -> (r: bool)
    ensures
        r == regex_matches(pattern.source@, text@),
{
    pattern.compiled.is_match(text)
}

/// The text of a `regex::Error`, as its `Display` gives it.
#[verifier::external_body]
fn describe(error: &regex::Error) -> String {
    error.to_string()
}

impl Pattern {
    /// The text of the pattern.
    pub closed spec fn source(&self) -> Seq<char> {
        self.source@
    }

    /// Compiles `source`. Fails exactly where `source` is no regular
    /// expression that the `regex` crate accepts.
    pub fn new(source: &str) -> (r: Result<Pattern, InvalidPattern>)
        ensures
            r is Ok <==> regex_compiles(source@),
            r matches Ok(p) ==> p.source() == source@,
    {
        match compile(source) {
            Ok(compiled) => Ok(Pattern { source: source.to_owned(), compiled }),
            Err(error) => Err(InvalidPattern(describe(&error))),
        }
    }

    /// Whether the pattern matches somewhere in `text`.
    pub fn is_match(&self, text: &str) -> (r: bool)
        ensures
            r == regex_matches(self.source(), text@),
    {
        is_match(self, text)
    }
}

/// The two patterns of a scan: a file is left out if it does not match the
/// filter, or if it matches the exclusion.
pub struct Patterns {
    pub filter: Option<Pattern>,
    pub exclude: Option<Pattern>,
}

/// Whether a path is left out, from what the patterns say of it: `filter`
/// and `exclude` hold whether the respective pattern matches the path, and
/// nothing where the pattern is not set. The path is left out if the filter
/// is set and does not match, or the exclusion is set and matches.
pub open spec fn spec_left_out(filter: Option<bool>, exclude: Option<bool>) -> bool {
    filter == Some(false) || exclude == Some(true)
}

/// Decides whether a path is left out, from what the patterns say of it.
#[verifier::when_used_as_spec(spec_left_out)]
pub fn left_out(filter: Option<bool>, exclude: Option<bool>) -> (r: bool)
    ensures
        r == spec_left_out(filter, exclude),
{
    let filtered = match filter {
        Some(matches) => !matches,
        None => false,
    };
    let excluded = match exclude {
        Some(matches) => matches,
        None => false,
    };
    filtered || excluded
}

impl Patterns {
    /// The texts of the two patterns, where they are set.
    pub open spec fn sources(&self) -> (Option<Seq<char>>, Option<Seq<char>>) {
        (
            match self.filter {
                Some(p) => Some(p.source()),
                None => None,
            },
            match self.exclude {
                Some(p) => Some(p.source()),
                None => None,
            },
        )
    }

    /// Compiles the patterns that are set. Fails exactly where one of them
    /// does not compile.
    pub fn new(filter: &Option<String>, exclude: &Option<String>) -> (r: Result<
        Patterns,
        InvalidPattern,
    >)
        ensures
            r is Ok <==> (filter matches Some(f) ==> regex_compiles(f@)) && (exclude matches Some(
                e,
            ) ==> regex_compiles(e@)),
            r matches Ok(p) ==> p.sources() == (
                match filter {
                    Some(f) => Some(f@),
                    None => None,
                },
                match exclude {
                    Some(e) => Some(e@),
                    None => None,
                },
            ),
    {
        let filter = match filter {
            Some(f) => match Pattern::new(f.as_str()) {
                Ok(p) => Some(p),
                Err(e) => {
                    return Err(e);
                },
            },
            None => None,
        };
        let exclude = match exclude {
            Some(x) => match Pattern::new(x.as_str()) {
                Ok(p) => Some(p),
                Err(e) => {
                    return Err(e);
                },
            },
            None => None,
        };
        Ok(Patterns { filter, exclude })
    }

    /// Some pattern is set.
    pub open spec fn spec_is_set(&self) -> bool {
        self.filter is Some || self.exclude is Some
    }

    /// Whether some pattern is set.
    #[verifier::when_used_as_spec(spec_is_set)]
    pub fn is_set(&self) -> (r: bool)
        ensures
            r == self.spec_is_set(),
    {
        self.filter.is_some() || self.exclude.is_some()
    }

    /// The path is left out: the filter is set and does not match it, or the
    /// exclusion is set and matches it.
    pub open spec fn spec_excludes(&self, path: Seq<char>) -> bool {
        left_out(
            match self.filter {
                Some(f) => Some(regex_matches(f.source(), path)),
                None => None,
            },
            match self.exclude {
                Some(e) => Some(regex_matches(e.source(), path)),
                None => None,
            },
        )
    }

    /// Whether the patterns leave the path out.
    pub fn excludes(&self, path: &str) -> (r: bool)
        ensures
            r == self.spec_excludes(path@),
    {
        let filter = match &self.filter {
            Some(f) => Some(f.is_match(path)),
            None => None,
        };
        if left_out(filter, None) {
            return true;
        }
        let exclude = match &self.exclude {
            Some(e) => Some(e.is_match(path)),
            None => None,
        };
        left_out(filter, exclude)
    }
}

} // verus!
