//! The small set of calls this library makes into outside code. Each item
//! is a thin wrapper whose contract is what the verified code relies on;
//! the bodies are not read by the verifier.

use vstd::prelude::*;

use fuzzy_matcher::FuzzyMatcher;

verus! {

/// The score that the skim fuzzy-matching algorithm assigns to a
/// choice/pattern pair, or nothing when the pattern does not match. The
/// algorithm depends on the two strings alone, so the value is a function
/// of them, left unspecified here.
pub uninterp spec fn fuzzy_score(choice: Seq<char>, pattern: Seq<char>) -> Option<i64>;

/// Relies on fuzzy_matcher's SkimMatcherV2::fuzzy_match: a deterministic
/// score computed from the two strings alone.
#[verifier::external_body]
pub(crate) fn fuzzy_match(choice: &str, pattern: &str) -> (r: Option<i64>)
    ensures
        r == fuzzy_score(choice@, pattern@),
{
    fuzzy_matcher::skim::SkimMatcherV2::default().fuzzy_match(choice, pattern)
}

/// What `String::from_utf8_lossy` decodes a byte sequence to; a function
/// of the bytes alone.
pub uninterp spec fn lossy_utf8(bytes: Seq<u8>) -> Seq<char>;

/// Relies on String::from_utf8_lossy: bytes that are already ASCII (a
/// subset of valid UTF-8) decode to exactly their own characters.
#[verifier::external_body]
pub(crate) fn utf8_lossy(bytes: &Vec<u8>) -> (r: String)
    ensures
        r@ == lossy_utf8(bytes@),
        (forall|i: int| 0 <= i < bytes@.len() ==> bytes@[i] < 128) ==> r@ == bytes@.map_values(
            |b: u8| b as char,
        ),
{
    String::from_utf8_lossy(bytes.as_slice()).into_owned()
}

/// Relies on dirs::config_dir: the platform's configuration directory, if
/// the environment defines one. Nothing is promised of the value.
#[verifier::external_body]
pub(crate) fn os_config_dir() -> (r: Option<String>) {
    dirs::config_dir().map(|p| p.to_string_lossy().into_owned())
}

/// Relies on dirs::home_dir: the user's home directory, if the
/// environment defines one. Nothing is promised of the value.
#[verifier::external_body]
pub(crate) fn os_home_dir() -> (r: Option<String>) {
    dirs::home_dir().map(|p| p.to_string_lossy().into_owned())
}

/// Relies on std::path::Path::exists: whether anything is on disk at the
/// path right now. Nothing is promised of the value.
#[verifier::external_body]
pub(crate) fn path_exists(path: &str) -> (r: bool) {
    std::path::Path::new(path).exists()
}

/// Relies on std::path::Path::is_file: whether the path names a regular
/// file on disk right now. Nothing is promised of the value.
#[verifier::external_body]
pub(crate) fn path_is_file(path: &str) -> (r: bool) {
    std::path::Path::new(path).is_file()
}

/// Relies on String::push: appends exactly the one character.
#[verifier::external_body]
pub(crate) fn push_char(s: &mut String, c: char)
    ensures
        final(s)@ == old(s)@.push(c),
{
    s.push(c);
}

/// Relies on String::pop: removes and returns the last character, if any.
#[verifier::external_body]
pub(crate) fn pop_char(s: &mut String) -> (r: Option<char>)
    ensures
        old(s)@.len() == 0 ==> r is None && final(s)@ == old(s)@,
        old(s)@.len() > 0 ==> r == Some(old(s)@.last()) && final(s)@ == old(s)@.drop_last(),
{
    s.pop()
}

} // verus!
