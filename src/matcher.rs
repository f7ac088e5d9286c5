//! Compiling the search term and extension into one filename matcher.
use vstd::prelude::*;
use vstd::string::StringExecFns;

verus! {

#[verifier::external_type_specification]
#[verifier::external_body]
pub struct ExRegex(regex::Regex);

#[verifier::external_type_specification]
#[verifier::external_body]
pub struct ExRegexError(regex::Error);

/// Whether the regex engine accepts `pattern` as a regular expression.
pub uninterp spec fn regex_compiles(pattern: Seq<char>) -> bool;

/// Whether the regular expression `pattern` matches somewhere in `haystack`.
pub uninterp spec fn regex_finds(pattern: Seq<char>, haystack: Seq<char>) -> bool;

/// Relies on `regex::Regex::new`: it succeeds exactly on the patterns that
/// the engine accepts, which depends on the pattern alone.
#[verifier::external_body]
fn compile_regex(pattern: &str) -> (r: Result<regex::Regex, regex::Error>)
    ensures
        r is Ok <==> regex_compiles(pattern@),
{
    regex::Regex::new(pattern)
}

/// The error a search reports before any traversal starts.
#[derive(Debug, Clone, PartialEq, Eq)]
pub enum SearchError {
    /// The filename pattern built from the search term and extension is not
    /// a valid regular expression; it holds that pattern.
    InvalidPattern(String),
}

/// A compiled filename predicate, shared read-only by every walker thread.
///
/// Its regex is always the compilation of its pattern: the fields are
/// private and `build_regex_search_input` is the only constructor.
#[derive(Debug)]
pub struct NameMatcher {
    regex: regex::Regex,
    pattern: String,
}

impl View for NameMatcher {
    type V = Seq<char>;

    /// The regular expression this matcher was compiled from.
    closed spec fn view(&self) -> Seq<char> {
        self.pattern@
    }
}

/// Relies on `regex::Regex::is_match`: whether the matcher's regex, compiled
/// from its pattern, matches somewhere in `name`.
#[verifier::external_body]
fn regex_is_match(m: &NameMatcher, name: &str) -> (r: bool)
    ensures
        r == regex_finds(m@, name@),
{
    m.regex.is_match(name)
}

impl NameMatcher {
    /// Tests a base filename against the compiled pattern.
    pub fn is_match(&self, name: &str) -> (r: bool)
        ensures
            r == regex_finds(self@, name@),
    {
        regex_is_match(self, name)
    }

    /// The pattern text this matcher was compiled from.
    pub fn pattern(&self) -> (r: &str)
        ensures
            r@ == self@,
    {
        self.pattern.as_str()
    }
}

/// What an absent search term stands for: one or more word characters.
pub open spec fn any_word() -> Seq<char> {
    "\\w+"@
}

/// How the pattern ends: a dot and the extension at the end of the name, or,
/// with no extension given, any extension or none at all.
pub open spec fn ext_suffix(ext: Option<Seq<char>>) -> Seq<char> {
    match ext {
        Some(e) => "\\."@ + e + "$"@,
        None => "(\\..*)?$"@,
    }
}

/// The regular expression searched for. In strict mode the whole name is
/// the term followed by the extension part; otherwise the term, any run of
/// characters and the extension part end the name. In case-insensitive
/// mode the flag `(?i)` comes first.
pub open spec fn search_pattern(
    term: Option<Seq<char>>,
    ext: Option<Seq<char>>,
    strict: bool,
    ignore_case: bool,
) -> Seq<char> {
    let t = match term {
        Some(t) => t,
        None => any_word(),
    };
    let body = if strict {
        "^"@ + t + ext_suffix(ext)
    } else {
        t + ".*"@ + ext_suffix(ext)
    };
    if ignore_case {
        "(?i)"@ + body
    } else {
        body
    }
}

/// The view of an optional string slice.
pub open spec fn opt_view(s: Option<&str>) -> Option<Seq<char>> {
    match s {
        Some(s) => Some(s@),
        None => None,
    }
}

/// Prefixes a pattern with the case-insensitivity flag.
pub fn set_case_insensitive(formatted_search_input: &str) -> (r: String)
    ensures
        r@ == "(?i)"@ + formatted_search_input@,
{
    let r = String::from_str("(?i)");
    r.concat(formatted_search_input)
}

/// Builds the filename pattern from the search term and extension, and
/// compiles it.
pub fn build_regex_search_input(
    search_input: Option<&str>,
    file_ext: Option<&str>,
    strict: bool,
    ignore_case: bool,
) -> (r: Result<NameMatcher, SearchError>)
    ensures
        ({
            let p = search_pattern(opt_view(search_input), opt_view(file_ext), strict, ignore_case);
            match r {
                Ok(m) => regex_compiles(p) && m@ == p,
                Err(SearchError::InvalidPattern(q)) => !regex_compiles(p) && q@ == p,
            }
        }),
{
    let term: &str = match search_input {
        Some(t) => t,
        None => "\\w+",
    };
    let mut body = if strict {
        String::from_str("^")
    } else {
        String::new()
    };
    body.append(term);
    if !strict {
        body.append(".*");
    }
    let suffix = match file_ext {
        Some(e) => {
            let mut x = String::from_str("\\.");
            x.append(e);
            x.append("$");
            x
        },
        None => String::from_str("(\\..*)?$"),
    };
    body.append(suffix.as_str());
    let pattern = if ignore_case {
        set_case_insensitive(body.as_str())
    } else {
        body
    };
    match compile_regex(pattern.as_str()) {
        Ok(regex) => Ok(NameMatcher { regex, pattern }),
        Err(_) => Err(SearchError::InvalidPattern(pattern)),
    }
}

} // verus!
