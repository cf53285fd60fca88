//! Work on text: membership in a list of names, and the text of a string
//! value, found in the node's source with a regular expression.

use vstd::prelude::*;
use crate::error::ConvertError;

verus! {

/// The texts that a list of strings holds.
pub open spec fn texts(list: Seq<String>) -> Seq<Seq<char>> {
    Seq::new(list.len(), |i: int| list[i]@)
}

/// The text of an optional string.
pub open spec fn optional_text(name: Option<String>) -> Option<Seq<char>> {
    match name {
        Some(text) => Some(text@),
        None => None,
    }
}

/// Whether `list` holds a string with the text of `item`.
pub fn contains_text(list: &Vec<String>, item: &String) -> (found: bool)
    ensures
        found == texts(list@).contains(item@),
{
    let mut i: usize = 0;
    while i < list.len()
        invariant
            i <= list.len(),
            forall|j: int| 0 <= j < i ==> texts(list@)[j] != item@,
        decreases list.len() - i,
    {
        if list[i].eq(item) {
            assert(texts(list@)[i as int] == item@);
            return true;
        }
        i += 1;
    }
    false
}

/// The error with which `regex::Regex::new` rejects a pattern. Nothing is
/// read of it: it is told apart from success and dropped.
#[verifier::external_type_specification]
#[verifier::external_body]
pub struct ExRegexError(regex::Error);

/// What the regular expression `pattern` finds in `text`: `None` where the
/// pattern is rejected, else the texts of its matches, which do not overlap,
/// from left to right.
pub uninterp spec fn regex_matches(pattern: Seq<char>, text: Seq<char>) -> Option<Seq<Seq<char>>>;

/// Compiles `pattern` with `regex::Regex::new` and walks `text` with
/// `Regex::captures_iter`, keeping of each match its whole text (group 0).
/// The contract only gives the outcome its name, `regex_matches`: an error
/// of the compiler is `None` there, and a list of matches is `Some` of their
/// texts in the order in which the iterator yields them.
#[verifier::external_body]
fn all_matches(pattern: &str, text: &str) -> (found: Result<Vec<String>, regex::Error>)
    ensures
        match found {
            Ok(list) => regex_matches(pattern@, text@) == Some(texts(list@)),
            Err(_) => regex_matches(pattern@, text@) is None,
        },
{
    match regex::Regex::new(pattern) {
        Ok(re) => Ok(re.captures_iter(text).map(|c| c[0].to_string()).collect()),
        Err(e) => Err(e),
    }
}

/// The pattern of a quoted span: a double quote, text without one, a double
/// quote.
pub open spec fn quoted_pattern() -> Seq<char> {
    "\"(?P<str>[^\"]*)\""@
}

/// The quoted token in the source of a string value: the last quoted span,
/// or the whole source where it holds none.
pub open spec fn string_token(spans: Seq<Seq<char>>, source: Seq<char>) -> Seq<char> {
    if spans.len() > 0 {
        spans.last()
    } else {
        source
    }
}

/// A token without its first and its last character.
pub open spec fn unquoted(token: Seq<char>) -> Result<Seq<char>, ConvertError> {
    if token.len() >= 2 {
        Ok(token.subrange(1, token.len() - 1))
    } else {
        Err(ConvertError::UnquotedString)
    }
}

/// The text of a string value, from what the search for quoted spans found
/// in its source.
pub open spec fn text_in_quotes(found: Option<Seq<Seq<char>>>, source: Seq<char>) -> Result<
    Seq<char>,
    ConvertError,
> {
    match found {
        None => Err(ConvertError::PatternRejected),
        Some(spans) => unquoted(string_token(spans, source)),
    }
}

/// The text of the string value with the given source.
pub open spec fn string_text(source: Seq<char>) -> Result<Seq<char>, ConvertError> {
    text_in_quotes(regex_matches(quoted_pattern(), source), source)
}

/// The views of an optional list of strings.
pub open spec fn found_texts(found: Option<Vec<String>>) -> Option<Seq<Seq<char>>> {
    match found {
        Some(list) => Some(texts(list@)),
        None => None,
    }
}

/// The view of a text or a failure.
pub open spec fn text_result(r: Result<String, ConvertError>) -> Result<Seq<char>, ConvertError> {
    match r {
        Ok(s) => Ok(s@),
        Err(e) => Err(e),
    }
}

/// Strips the quotes: takes the last quoted span that was found in `source`,
/// or `source` itself where none was, and drops its first and last
/// character. Fails where the search was rejected, and where the token is
/// shorter than two characters.
pub fn strip_quotes(found: &Option<Vec<String>>, source: &String) -> (r: Result<
    String,
    ConvertError,
>)
    ensures
        text_result(r) == text_in_quotes(found_texts(*found), source@),
{
    match found {
        None => Err(ConvertError::PatternRejected),
        Some(spans) => {
            let token: &String = if spans.len() > 0 {
                &spans[spans.len() - 1]
            } else {
                source
            };
            assert(token@ == string_token(texts(spans@), source@));
            let n = token.as_str().unicode_len();
            if n >= 2 {
                Ok(token.as_str().substring_char(1, n - 1).to_owned())
            } else {
                Err(ConvertError::UnquotedString)
            }
        },
    }
}

/// The text of a string value whose node has the source `source`: the last
/// span in double quotes, without the quotes.
pub fn string_value_text(source: &String) -> (r: Result<String, ConvertError>)
    ensures
        text_result(r) == string_text(source@),
{
    let found = match all_matches("\"(?P<str>[^\"]*)\"", source.as_str()) {
        Ok(list) => Some(list),
        Err(_) => None,
    };
    strip_quotes(&found, source)
}

} // verus!
