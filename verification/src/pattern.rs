//! Filename patterns: regular expressions matched against entry names.

use vstd::prelude::*;
use regex::Regex;

verus! {

/// A compiled regular expression of the `regex` crate.
#[verifier::external_type_specification]
#[verifier::external_body]
pub struct ExRegex(regex::Regex);

/// The reason why the `regex` crate refused a pattern.
#[verifier::external_type_specification]
#[verifier::external_body]
pub struct ExRegexError(regex::Error);

/// Whether `Regex::new` accepts `source` as a pattern.
pub uninterp spec fn pattern_compiles(source: Seq<char>) -> bool;

/// Whether the expression compiled from `source` matches somewhere in `text`.
pub uninterp spec fn pattern_finds(source: Seq<char>, text: Seq<char>) -> bool;

/// A filename pattern: the pattern text together with its compiled form.
///
/// Values are only made by compiling a text, so the compiled form always
/// belongs to the text. The view is the text.
#[derive(Debug)]
pub struct FilePattern {
    source: String,
    compiled: Regex,
}

impl View for FilePattern {
    type V = Seq<char>;

    closed spec fn view(&self) -> Seq<char> {
        self.source@
    }
}

/// A pattern text that does not compile, with the reason.
#[derive(Debug)]
pub struct PatternRejected {
    pub pattern: String,
    pub cause: regex::Error,
}

/// `Regex::new` on `source`, with the text kept beside the compiled
/// expression. Trusted: the call succeeds exactly on the texts that
/// `pattern_compiles` names, and the pattern made is the one of `source`.
#[verifier::external_body]
pub(crate) fn compile_regex(source: &str) -> (outcome: Result<FilePattern, regex::Error>)
    ensures
        outcome is Ok <==> pattern_compiles(source@),
        outcome matches Ok(pattern) ==> pattern@ == source@,
{
    match Regex::new(source) {
        Ok(compiled) => Ok(FilePattern { source: source.to_owned(), compiled }),
        Err(cause) => Err(cause),
    }
}

/// `Regex::is_match` on `text`. Trusted: the answer is the one that
/// `pattern_finds` names for the pattern's text and `text`; a match may
/// start anywhere in `text`.
#[verifier::external_body]
pub(crate) fn regex_is_match(pattern: &FilePattern, text: &str) -> (found: bool)
    ensures
        found == pattern_finds(pattern@, text@),
{
    pattern.compiled.is_match(text)
}

impl FilePattern {
    /// Compiles a pattern text.
    ///
    /// Succeeds exactly on the texts the expression engine accepts; a
    /// refused text comes back unchanged with the engine's reason.
    pub fn parse(source: &str) -> (outcome: Result<FilePattern, PatternRejected>)
        ensures
            outcome is Ok <==> pattern_compiles(source@),
            outcome matches Ok(pattern) ==> pattern@ == source@,
            outcome matches Err(rejected) ==> rejected.pattern@ == source@,
    {
        match compile_regex(source) {
            Ok(pattern) => Ok(pattern),
            Err(cause) => Err(PatternRejected { pattern: source.to_owned(), cause }),
        }
    }

    /// The pattern text.
    pub fn as_str(&self) -> (text: &str)
        ensures
            text@ == self@,
    {
        self.source.as_str()
    }
}

/// Whether a pattern, if one is configured, selects an entry by its name.
///
/// Only the name is looked at, never the path that leads to it. Without a
/// pattern, or for a name that is not valid text, nothing is selected.
pub open spec fn selects(pattern: Option<FilePattern>, name: Option<String>) -> bool {
    match (pattern, name) {
        (Some(p), Some(n)) => pattern_finds(p@, n@),
        _ => false,
    }
}

/// Decides [`selects`] for a configured pattern and an entry name.
pub fn pattern_selects(pattern: &Option<FilePattern>, name: &Option<String>) -> (chosen: bool)
    ensures
        chosen == selects(*pattern, *name),
{
    match pattern {
        Some(p) => match name {
            Some(n) => regex_is_match(p, n.as_str()),
            None => false,
        },
        None => false,
    }
}

/// Whether a name marks a hidden entry: it starts with a dot and is neither
/// `.` nor `..`.
pub open spec fn is_hidden_name(name: Seq<char>) -> bool {
    &&& name.len() > 0
    &&& name[0] == '.'
    &&& name != seq!['.']
    &&& name != seq!['.', '.']
}

/// Decides [`is_hidden_name`].
pub fn hidden_name(name: &str) -> (hidden: bool)
    ensures
        hidden == is_hidden_name(name@),
{
    let len: usize = name.unicode_len();
    if len == 0 {
        return false;
    }
    if name.get_char(0) != '.' {
        return false;
    }
    if len == 1 {
        assert(name@ =~= seq!['.']);
        return false;
    }
    if len == 2 && name.get_char(1) == '.' {
        assert(name@ =~= seq!['.', '.']);
        return false;
    }
    proof {
        assert(seq!['.'].len() == 1);
        assert(seq!['.', '.'].len() == 2);
        if len == 2 {
            assert(name@[1] != seq!['.', '.'][1]);
        }
    }
    true
}

} // verus!
