//! Regular expressions, as far as the probes use them: one search for one
//! capture group, done by the `regex` crate.

use vstd::prelude::*;
use crate::defs::SB_STATE_PATTERN;

verus! {

/// `regex::Error`: why a pattern did not compile. Carried through unread.
#[verifier::external_type_specification]
#[verifier::external_body]
pub struct ExRegexError(regex::Error);

/// The text of group `group` in the first match of the regular expression
/// `pattern` in `haystack`, as the `regex` crate finds it; `None` where
/// nothing matches, where the group takes no part in the match, and where
/// the pattern does not compile.
pub uninterp spec fn regex_capture(pattern: Seq<char>, haystack: Seq<char>, group: nat) -> Option<
    Seq<char>,
>;

/// Calls `regex::Regex::captures` on `haystack`, with `pattern` compiled by
/// `regex::Regex::new` and the group read by `Captures::get` and
/// `Match::as_str`.
///
/// What the search finds depends on the pattern and the haystack alone; the
/// contract names it and says no more of it. A pattern that does not compile
/// comes back as the engine's error, and captures nothing. The contract is
/// claimed for the state pattern only, which every machine compiles: a
/// pattern close to the engine's size limit might compile on one machine and
/// not on another.
#[verifier::external_body]
pub(crate) fn capture(pattern: &str, haystack: &str, group: usize) -> (res: Result<
    Option<String>,
    regex::Error,
>)
    requires
        pattern@ == SB_STATE_PATTERN@,
    ensures
        match res {
            Ok(Some(text)) => regex_capture(pattern@, haystack@, group as nat) == Some(text@),
            Ok(None) => regex_capture(pattern@, haystack@, group as nat) is None,
            Err(_) => regex_capture(pattern@, haystack@, group as nat) is None,
        },
{
    let re = regex::Regex::new(pattern)?;
    Ok(re.captures(haystack).and_then(|caps| caps.get(group)).map(|m| m.as_str().to_string()))
}

} // verus!
