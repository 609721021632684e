//! The regular-expression engine, as far as the policy depends on it.
//!
//! Nothing in this file is proved. The engine is the `regex` crate; what the
//! rest of the library assumes of it is written here, and only here.

use regex::Regex;
use vstd::prelude::*;

verus! {

/// `regex::Regex`, a compiled expression. Nothing inside it is visible.
#[verifier::external_type_specification]
#[verifier::external_body]
pub struct ExRegex(regex::Regex);

/// `regex::Error`, the reason a pattern was refused.
#[verifier::external_type_specification]
#[verifier::external_body]
pub struct ExRegexError(regex::Error);

/// The texts in which a compiled expression finds a match: the haystacks for
/// which `Regex::is_match` answers `true`.
pub uninterp spec fn matched_texts(re: Regex) -> Set<Seq<char>>;

/// What `Regex::new` makes of a pattern: `None` where it refuses the pattern,
/// else the texts in which the compiled expression finds a match.
pub uninterp spec fn compiled(pattern: Seq<char>) -> Option<Set<Seq<char>>>;

/// `Regex::new` compiles a pattern with the default options. Whether it
/// accepts the pattern, and what the expression then matches, depends on the
/// pattern's text alone.
pub assume_specification[ Regex::new ](re: &str) -> (r: Result<Regex, regex::Error>)
    ensures
        match r {
            Ok(expr) => compiled(re@) == Some(matched_texts(expr)),
            Err(_) => compiled(re@) is None,
        },
;

/// `Regex::is_match` says whether the expression matches anywhere in the
/// haystack. It searches from the start of the haystack and does not panic.
pub assume_specification[ Regex::is_match ](re: &Regex, haystack: &str) -> (found: bool)
    ensures
        found == matched_texts(*re).contains(haystack@),
;

/// The message of a `regex::Error`, as its `Display` impl writes it. Nothing
/// is claimed of the text.
#[verifier::external_body]
pub(crate) fn error_text(e: &regex::Error) -> (text: String) {
    e.to_string()
}

} // verus!
