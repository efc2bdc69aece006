//! Shell-style tokenization of command strings.
//!
//! Commands configured through environment variables are written the way a
//! Unix shell would read them: words separated by whitespace, with quoting
//! and escaping honoured.  The tokenization itself is done by the
//! `shell_words` crate; its results are named by the uninterpreted
//! functions below, and everything the rest of the crate proves about
//! commands is stated over those names.

use vstd::prelude::*;

verus! {

/// The token list that shell-word splitting produces for `s`, or `None`
/// when `s` is malformed (an unmatched quote).
pub uninterp spec fn shell_split_of(s: Seq<char>) -> Option<Seq<Seq<char>>>;

/// The single command line that joining `words` produces, with each word
/// quoted as needed so that it keeps its literal meaning.
pub uninterp spec fn shell_join_of(words: Seq<Seq<char>>) -> Seq<char>;

/// Holds when `s` contains nothing but word separators, i.e. the blanks
/// that shell-word splitting treats as delimiters.
pub open spec fn whitespace_only(s: Seq<char>) -> bool {
    forall|i: int| 0 <= i < s.len() ==> (s[i] == ' ' || s[i] == '\t' || s[i] == '\n')
}

/// The error for a command string with an unmatched quote.
#[verifier::external_type_specification]
#[verifier::external_body]
pub struct ExParseError(shell_words::ParseError);

/// Relies on `shell_words::split`: the token list depends on the characters
/// of `s` alone; splitting fails exactly on unmatched quotes, and a string
/// of separators alone yields no tokens and no error.
#[verifier::external_body]
pub(crate) fn split_line(s: &str) -> (r: Result<Vec<String>, shell_words::ParseError>)
    ensures
        (r is Ok) == (shell_split_of(s@) is Some),
        r matches Ok(words) ==> shell_split_of(s@) == Some(words.deep_view()),
        r is Err ==> !whitespace_only(s@),
        r matches Ok(words) ==> (whitespace_only(s@) ==> words@.len() == 0),
{
    shell_words::split(s)
}

/// Relies on `shell_words::join`: the joined line depends on the words
/// alone, and splitting it again gives back the same ordered word list
/// (`join` is documented as an inverse of `split`).
#[verifier::external_body]
fn join_line(words: &Vec<String>) -> (r: String)
    ensures
        r@ == shell_join_of(words.deep_view()),
        shell_split_of(r@) == Some(words.deep_view()),
{
    shell_words::join(words)
}

/// Renders a token list as one command string, quoting each token so that
/// it keeps its literal meaning.
///
/// Tokenizing the result gives back exactly the same ordered token list:
/// the round trip from tokens through a command string loses nothing.
pub fn join_command_line(words: &Vec<String>) -> (line: String)
    ensures
        line@ == shell_join_of(words.deep_view()),
        shell_split_of(line@) == Some(words.deep_view()),
{
    join_line(words)
}

} // verus!
