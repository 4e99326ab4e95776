//! Matching with regular expressions, from `regex`.
use vstd::prelude::*;
use regex::Regex;
use crate::text::{opt_text, texts};

verus! {

/// Whether `c` is one of the characters that a regular expression reads as
/// syntax.
pub open spec fn is_meta_character(c: char) -> bool {
    c == '\\' || c == '.' || c == '+' || c == '*' || c == '?' || c == '(' || c == ')' || c == '|'
        || c == '[' || c == ']' || c == '{' || c == '}' || c == '^' || c == '$' || c == '#' || c
        == '&' || c == '-' || c == '~'
}

/// `text` with a backslash before each character that a regular expression
/// reads as syntax.
pub open spec fn escaped(text: Seq<char>) -> Seq<char>
    decreases text.len(),
{
    if text.len() == 0 {
        Seq::empty()
    } else if is_meta_character(text.last()) {
        escaped(text.drop_last()).push('\\').push(text.last())
    } else {
        escaped(text.drop_last()).push(text.last())
    }
}

/// The parts of `text` that no match of the regular expression `pattern`
/// covers, from left to right: what stands before the first match, between
/// each two matches that follow one another, and after the last one. `None`
/// where `pattern` is no regular expression that the engine takes.
pub uninterp spec fn split_by(pattern: Seq<char>, text: Seq<char>) -> Option<Seq<Seq<char>>>;

/// For each match of the regular expression `pattern` in `text`, from left to
/// right, what its capture group number `group` holds, if the group took part
/// in that match. `None` where `pattern` is no regular expression that the
/// engine takes.
pub uninterp spec fn captured_by(pattern: Seq<char>, text: Seq<char>, group: usize) -> Option<
    Seq<Option<Seq<char>>>,
>;

/// The texts of a vector of strings that may be missing.
pub open spec fn opt_texts(strings: Option<Vec<String>>) -> Option<Seq<Seq<char>>> {
    match strings {
        Some(v) => Some(texts(v@)),
        None => None,
    }
}

/// The texts of the strings of a vector, each of which may be missing.
pub open spec fn sparse_texts(strings: Seq<Option<String>>) -> Seq<Option<Seq<char>>> {
    strings.map_values(|s: Option<String>| opt_text(s))
}

/// Calls `regex::escape`.
///
/// Trusted, not proved: the result is `text` with a backslash before each of
/// its meta characters, and nothing else changed.
#[verifier::external_body]
pub(crate) fn escape(text: &str) -> (literal: String)
    ensures
        literal@ == escaped(text@),
{
    regex::escape(text)
}

/// Compiles `pattern` with `regex::Regex::new` and splits `text` with
/// `Regex::split`; the parts come back as owned strings, in the order in which
/// the iterator yields them.
///
/// Trusted, not proved: the parts are those that `split_by` names, and
/// nothing comes back exactly where the engine does not take `pattern`.
#[verifier::external_body]
pub(crate) fn split(pattern: &str, text: &str) -> (parts: Option<Vec<String>>)
    ensures
        opt_texts(parts) == split_by(pattern@, text@),
{
    match Regex::new(pattern) {
        Ok(re) => Some(re.split(text).map(|part| part.to_string()).collect()),
        Err(_) => None,
    }
}

/// Compiles `pattern` with `regex::Regex::new`, walks the matches in `text`
/// with `Regex::captures_iter` and takes from each what `Captures::get` gives
/// for `group`, as an owned string.
///
/// Trusted, not proved: the texts are those that `captured_by` names, and
/// nothing comes back exactly where the engine does not take `pattern`.
#[verifier::external_body]
pub(crate) fn captured(pattern: &str, text: &str, group: usize) -> (found: Option<
    Vec<Option<String>>,
>)
    ensures
        match found {
            Some(v) => captured_by(pattern@, text@, group) == Some(sparse_texts(v@)),
            None => captured_by(pattern@, text@, group) is None,
        },
{
    match Regex::new(pattern) {
        Ok(re) => Some(
            re.captures_iter(text).map(|c| c.get(group).map(|m| m.as_str().to_string())).collect(),
        ),
        Err(_) => None,
    }
}

} // verus!
