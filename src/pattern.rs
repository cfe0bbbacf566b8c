//! Pattern matchers: glob-style wildcards and regular expressions.
use vstd::prelude::*;

verus! {

/// Glob matching over the whole text: `*` matches any run of characters
/// (the empty one included), `?` matches exactly one character, and every
/// other character matches itself.
pub open spec fn glob_matches(pattern: Seq<char>, text: Seq<char>) -> bool
    decreases pattern.len() + text.len(),
{
    if pattern.len() == 0 {
        text.len() == 0
    } else if pattern[0] == '*' {
        glob_matches(pattern.drop_first(), text) || (text.len() > 0 && glob_matches(
            pattern,
            text.drop_first(),
        ))
    } else {
        text.len() > 0 && (pattern[0] == '?' || pattern[0] == text[0]) && glob_matches(
            pattern.drop_first(),
            text.drop_first(),
        )
    }
}

/// Whether `regex::Regex::new` accepts the pattern.
pub uninterp spec fn regex_accepts(pattern: Seq<char>) -> bool;

/// Whether the regex compiled from `pattern` finds a match anywhere in `text`.
pub uninterp spec fn regex_finds(pattern: Seq<char>, text: Seq<char>) -> bool;

/// Relies on `wildmatch::WildMatch::new` and `WildMatch::matches`: a
/// case-sensitive glob match of the whole text, with `*` for any run of
/// characters and `?` for exactly one.
#[verifier::external_body]
pub fn wildcard_matches(pattern: &str, text: &str) -> (r: bool)
    ensures
        r == glob_matches(pattern@, text@),
{
    wildmatch::WildMatch::new(pattern).matches(text)
}

/// The message that `regex::Regex::new` gives, through its error's
/// `Display`, for a pattern that it does not accept.
pub uninterp spec fn regex_error_text(pattern: Seq<char>) -> Seq<char>;

/// Relies on `regex::Regex::new`: it fails exactly on the patterns that it
/// does not accept, and the error's `Display` is the parser's message. The
/// compiled regex itself is not kept.
#[verifier::external_body]
pub fn check_regex(pattern: &str) -> (r: Result<(), String>)
    ensures
        r is Ok <==> regex_accepts(pattern@),
        r matches Err(message) ==> message@ == regex_error_text(pattern@),
{
    regex::Regex::new(pattern).map(|_| ()).map_err(|e| e.to_string())
}

/// Relies on `regex::Regex::new` and `Regex::is_match`: a regex that compiles
/// is searched for anywhere in the text; a pattern that does not compile
/// matches nothing.
#[verifier::external_body]
pub fn regex_is_match(pattern: &str, text: &str) -> (r: bool)
    ensures
        r == (regex_accepts(pattern@) && regex_finds(pattern@, text@)),
{
    match regex::Regex::new(pattern) {
        Ok(re) => re.is_match(text),
        Err(_) => false,
    }
}

/// A pattern of a lone `*` matches every text.
pub proof fn lemma_star_matches_all(text: Seq<char>)
    ensures
        glob_matches(seq!['*'], text),
    decreases text.len(),
{
    let p = seq!['*'];
    assert(p.drop_first() =~= Seq::<char>::empty());
    if text.len() > 0 {
        lemma_star_matches_all(text.drop_first());
    } else {
        assert(glob_matches(p.drop_first(), text));
    }
}

} // verus!
