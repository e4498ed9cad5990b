//! The pattern compiler: turns the keyword and its flags into the pattern text
//! the regex engine sees, and compiles it into a [`Matcher`].

use vstd::prelude::*;
use vstd::string::StringExecFns;
use crate::config::Config;

verus! {

/// `regex::Regex`, a compiled pattern of the regex crate; opaque here.
#[verifier::external_type_specification]
#[verifier::external_body]
pub struct ExRegex(regex::Regex);

/// Whether the pattern (compiled with or without case folding) matches
/// somewhere in the line.  The regex engine's answer depends on these three
/// values alone.
pub uninterp spec fn re_match(pattern: Seq<char>, ignore_case: bool, line: Seq<char>) -> bool;

/// The spans (character offsets, half-open) of all successive non-overlapping
/// matches of the pattern in the line, leftmost first.  The regex engine's
/// answer depends on these three values alone.
pub uninterp spec fn re_spans(pattern: Seq<char>, ignore_case: bool, line: Seq<char>) -> Seq<
    (usize, usize),
>;

/// Whether the engine accepts the pattern (compiled with or without case
/// folding).  The engine's decision depends on these two values alone: our
/// builder fixes every other knob at its default.
pub uninterp spec fn re_compiles(pattern: Seq<char>, ignore_case: bool) -> bool;

/// The engine's diagnostic for a pattern it refuses, rendered as text.  The
/// rendering depends on these two values alone.
pub uninterp spec fn re_diagnostic(pattern: Seq<char>, ignore_case: bool) -> Seq<char>;

/// The characters the regex engine treats as metacharacters, each of which
/// escaping puts a backslash before.
pub open spec fn is_meta_char(c: char) -> bool {
    c == '\\' || c == '.' || c == '+' || c == '*' || c == '?' || c == '(' || c == ')' || c == '|'
        || c == '[' || c == ']' || c == '{' || c == '}' || c == '^' || c == '$' || c == '#'
        || c == '&' || c == '-' || c == '~'
}

/// The keyword with a backslash put before every metacharacter, so that no
/// part of it is read as regex syntax.
pub open spec fn escape_spec(s: Seq<char>) -> Seq<char>
    decreases s.len(),
{
    if s.len() == 0 {
        s
    } else {
        (if is_meta_char(s[0]) {
            seq!['\\', s[0]]
        } else {
            seq![s[0]]
        }) + escape_spec(s.drop_first())
    }
}

/// The pattern text handed to the regex engine: the keyword, escaped when it
/// is to be taken literally, and wrapped in word-boundary assertions when only
/// whole words are to match.
pub open spec fn pattern_spec(keyword: Seq<char>, fixed_strings: bool, word_regexp: bool) -> Seq<
    char,
> {
    let base = if fixed_strings {
        escape_spec(keyword)
    } else {
        keyword
    };
    if word_regexp {
        "\\b"@ + base + "\\b"@
    } else {
        base
    }
}

/// Relies on `regex::escape`: it returns its input with a backslash put before
/// every character of the engine's metacharacter set, and nothing else
/// changed.
#[verifier::external_body]
fn escape_regex(s: &String) -> (r: String)
    ensures
        r@ == escape_spec(s@),
{
    regex::escape(s.as_str())
}

/// Builds the pattern text the matcher is compiled from.
pub fn build_pattern(keyword: &String, fixed_strings: bool, word_regexp: bool) -> (pattern: String)
    ensures
        pattern@ == pattern_spec(keyword@, fixed_strings, word_regexp),
{
    let base = if fixed_strings {
        escape_regex(keyword)
    } else {
        keyword.clone()
    };
    if word_regexp {
        let mut p = String::new();
        p.append("\\b");
        p.append(base.as_str());
        p.append("\\b");
        proof {
            assert(p@ =~= "\\b"@ + base@ + "\\b"@);
        }
        p
    } else {
        base
    }
}

/// A compiled matcher: the regex together with the pattern text and case flag
/// it was compiled from.  Immutable for the run.
pub struct Matcher {
    re: regex::Regex,
    pattern: String,
    ignore_case: bool,
}

/// A pattern the regex engine refused, with the engine's diagnostic.
#[derive(Debug)]
pub struct PatternError {
    /// The pattern text that failed to compile.
    pub pattern: String,
    /// The engine's diagnostic, rendered as text.
    pub message: String,
}

impl Matcher {
    /// The pattern text this matcher was compiled from.
    pub closed spec fn pattern_view(&self) -> Seq<char> {
        self.pattern@
    }

    /// Whether this matcher folds case.
    pub closed spec fn case_insensitive(&self) -> bool {
        self.ignore_case
    }

    /// Relies on `Regex::is_match`.  The `re` field is always the compilation
    /// of `pattern` with `ignore_case` (only `build_regex` constructs a
    /// `Matcher`), so the answer is a function of those two values and the
    /// line.
    #[verifier::external_body]
    fn re_is_match(&self, line: &String) -> (r: bool)
        ensures
            r == re_match(self.pattern_view(), self.case_insensitive(), line@),
    {
        self.re.is_match(line.as_str())
    }

    /// Whether the pattern matches somewhere in the line.
    pub fn is_match(&self, line: &String) -> (r: bool)
        ensures
            r == re_match(self.pattern_view(), self.case_insensitive(), line@),
    {
        self.re_is_match(line)
    }

    /// Relies on `Regex::find_iter`: it yields the successive non-overlapping
    /// matches of the pattern, leftmost first, as byte ranges of the line;
    /// each range is rendered here, one for one, as character offsets.  The
    /// `re` field is always the compilation of `pattern` with `ignore_case`.
    /// A match exists exactly when `Regex::is_match` answers true.
    #[verifier::external_body]
    pub(crate) fn find_spans(&self, line: &String) -> (spans: Vec<(usize, usize)>)
        ensures
            spans@ == re_spans(self.pattern_view(), self.case_insensitive(), line@),
            forall|i: int|
                0 <= i < spans@.len() ==> (#[trigger] spans@[i]).0 <= spans@[i].1 <= line@.len(),
            forall|i: int|
                0 <= i < spans@.len() - 1 ==> (#[trigger] spans@[i]).1 <= spans@[i + 1].0,
            (spans@.len() > 0) == re_match(self.pattern_view(), self.case_insensitive(), line@),
    {
        let s = line.as_str();
        let mut spans = Vec::new();
        for m in self.re.find_iter(s) {
            let from = s[..m.start()].chars().count();
            let to = s[..m.end()].chars().count();
            spans.push((from, to));
        }
        spans
    }
}

/// Relies on `RegexBuilder` (`new`, `case_insensitive`, `build`): whether
/// `build` succeeds is decided by the pattern text and the case flag alone
/// (every other option is left at its default), named `re_compiles`.  On
/// success the returned regex is the compilation of `pattern` with the given
/// case flag; on failure the engine's error is rendered as text, named
/// `re_diagnostic`.
#[verifier::external_body]
fn build_regex(pattern: String, ignore_case: bool) -> (r: Result<Matcher, String>)
    ensures
        (r is Ok) == re_compiles(pattern@, ignore_case),
        r matches Ok(m) ==> m.pattern_view() == pattern@ && m.case_insensitive() == ignore_case,
        r matches Err(message) ==> message@ == re_diagnostic(pattern@, ignore_case),
{
    match regex::RegexBuilder::new(&pattern).case_insensitive(ignore_case).build() {
        Ok(re) => Ok(Matcher { re, pattern, ignore_case }),
        Err(e) => Err(e.to_string()),
    }
}

/// Compiles the configuration's keyword and flags into a matcher.  It
/// succeeds exactly when the engine accepts the built pattern text.  On
/// failure the error carries the offending pattern text and the engine's
/// diagnostic; the caller reports them and terminates the run.
pub fn build_matcher(config: &Config) -> (r: Result<Matcher, PatternError>)
    ensures
        (r is Ok) == re_compiles(
            pattern_spec(config.keyword@, config.fixed_strings, config.word_regexp),
            config.ignore_case,
        ),
        r matches Ok(m) ==> m.pattern_view() == pattern_spec(
            config.keyword@,
            config.fixed_strings,
            config.word_regexp,
        ) && m.case_insensitive() == config.ignore_case,
        r matches Err(e) ==> e.pattern@ == pattern_spec(
            config.keyword@,
            config.fixed_strings,
            config.word_regexp,
        ) && e.message@ == re_diagnostic(
            pattern_spec(config.keyword@, config.fixed_strings, config.word_regexp),
            config.ignore_case,
        ),
{
    let pattern = build_pattern(&config.keyword, config.fixed_strings, config.word_regexp);
    let saved = pattern.clone();
    match build_regex(pattern, config.ignore_case) {
        Ok(m) => Ok(m),
        Err(message) => Err(PatternError { pattern: saved, message }),
    }
}

} // verus!
