use std::collections::VecDeque;
use vstd::prelude::*;

verus! {

/// The ASCII transliteration of `text`.
pub uninterp spec fn unidecoded(text: Seq<char>) -> Seq<char>;

/// Calls `unidecode::unidecode`, which maps each character to ASCII text by a fixed table
/// and joins the pieces. Nothing is claimed of the outcome but that it is a function of
/// `text`.
#[verifier::external_body]
pub(crate) fn transliterate(text: &str) -> (ascii: String)
    ensures
        ascii@ == unidecoded(text@),
{
    unidecode::unidecode(text)
}

/// Where the matches of `pattern`, read as a regular expression that ignores case, start in
/// `haystack`, in the order of the text and counted in bytes; `None` where `pattern` is no
/// regular expression.
pub uninterp spec fn match_starts(pattern: Seq<char>, haystack: Seq<char>) -> Option<Seq<usize>>;

/// Compiles `pattern` with `regex::bytes::RegexBuilder`, case-insensitive, and walks
/// `find_iter` over the bytes of `haystack`, keeping the `start` of each match. The error
/// is the one that `build` gave. Nothing more is claimed of the outcome than that it is a
/// function of the two texts.
#[verifier::external_body]
pub(crate) fn find_match_starts(pattern: &str, haystack: &str) -> (found: Result<
    VecDeque<usize>,
    regex::Error,
>)
    ensures
        match found {
            Ok(starts) => match_starts(pattern@, haystack@) == Some(starts@),
            Err(_) => match_starts(pattern@, haystack@) is None,
        },
{
    let re = regex::bytes::RegexBuilder::new(pattern).case_insensitive(true).build()?;
    Ok(re.find_iter(haystack.as_bytes()).map(|m| m.start()).collect())
}

/// The characters that mean something in a regular expression.
pub open spec fn is_meta_character(c: char) -> bool {
    c == '\\' || c == '.' || c == '+' || c == '*' || c == '?' || c == '(' || c == ')' || c == '|'
        || c == '[' || c == ']' || c == '{' || c == '}' || c == '^' || c == '$' || c == '#' || c
        == '&' || c == '-' || c == '~'
}

/// `text` with a backslash put before each character that means something in a regular
/// expression.
pub open spec fn escaped(text: Seq<char>) -> Seq<char>
    decreases text.len(),
{
    if text.len() == 0 {
        Seq::empty()
    } else if is_meta_character(text.last()) {
        escaped(text.drop_last()).push('\\').push(text.last())
    } else {
        escaped(text.drop_last()).push(text.last())
    }
}

/// Calls `regex::escape`, which copies `text` and puts a backslash before each of the
/// characters `\ . + * ? ( ) | [ ] { } ^ $ # & - ~`.
#[verifier::external_body]
pub(crate) fn escape(text: &str) -> (quoted: String)
    ensures
        quoted@ == escaped(text@),
{
    regex::escape(text)
}

} // verus!
