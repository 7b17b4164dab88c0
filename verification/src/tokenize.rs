//! Shell-style word splitting, done by the `shell_words` crate.
//!
//! Nothing in this module is proved: it states what the rest of the library
//! takes on trust about `shell_words`.

use vstd::prelude::*;

verus! {

/// The words that `shell_words::split` makes of `line`, or `None` where it
/// refuses the line. The splitting rules themselves (quotes, backslashes,
/// comments) are those of `shell_words` and are not restated here.
pub uninterp spec fn shell_split(line: Seq<char>) -> Option<Seq<Seq<char>>>;

/// The error of `shell_words::split`, carried through as an opaque value.
#[verifier::external_type_specification]
#[verifier::external_body]
pub struct ExSplitError(shell_words::ParseError);

/// The words of a vector of strings, each as its characters.
pub open spec fn words_view(words: Seq<String>) -> Seq<Seq<char>> {
    Seq::new(words.len(), |i: int| words[i]@)
}

/// Calls `shell_words::split`. Trusted: the call is a function of the line
/// alone, so its outcome is [`shell_split`] of the line, `Ok` with the words
/// or `Err` where there are none.
#[verifier::external_body]
pub(crate) fn split_words(line: &str) -> (r: Result<Vec<String>, shell_words::ParseError>)
    ensures
        match r {
            Ok(words) => shell_split(line@) == Some(words_view(words@)),
            Err(_) => shell_split(line@) is None,
        },
{
    shell_words::split(line)
}

/// Renders the error of `shell_words::split` through its `Display` impl.
/// Trusted: that impl writes one fixed sentence, whatever the input was.
#[verifier::external_body]
pub(crate) fn split_error_text(e: &shell_words::ParseError) -> (s: String)
    ensures
        s@ == "missing closing quote"@,
{
    e.to_string()
}

} // verus!
