use vstd::prelude::*;

verus! {

#[verifier::external_type_specification]
#[verifier::external_body]
pub struct ExRegex(regex::Regex);

#[verifier::external_type_specification]
#[verifier::external_body]
pub struct ExRegexError(regex::Error);

/// The pattern text that a compiled expression holds (what `Regex::as_str` hands out).
pub uninterp spec fn regex_pattern(re: regex::Regex) -> Seq<char>;

/// Whether a compiled expression was built with the default options of `Regex::new`,
/// so that its pattern text alone decides what it matches.
pub uninterp spec fn regex_plain(re: regex::Regex) -> bool;

/// Whether `Regex::new` accepts the pattern text.
pub uninterp spec fn regex_compiles(pattern: Seq<char>) -> bool;

/// What `Regex::captures` finds for a pattern compiled by `Regex::new` in a text:
/// `None` where the pattern does not match, otherwise one entry per capture group,
/// the whole match first, each the text the group captured or `None` where the group
/// took no part in the match.
pub uninterp spec fn regex_captures(pattern: Seq<char>, text: Seq<char>) -> Option<
    Seq<Option<Seq<char>>>,
>;

/// `Regex::new` compiles a pattern with the default options. Nothing is proved of it:
/// the contract names the patterns it accepts, and says that the compiled expression
/// holds the text it was given.
pub assume_specification[ regex::Regex::new ](re: &str) -> (r: Result<
    regex::Regex,
    regex::Error,
>)
    ensures
        r is Ok <==> regex_compiles(re@),
        r matches Ok(compiled) ==> regex_pattern(compiled) == re@ && regex_plain(compiled),
;

/// `Regex::as_str` hands out the pattern text that a compiled expression holds.
/// Nothing is proved of it: the contract says that this is the text named above.
pub assume_specification<'a>[ regex::Regex::as_str ](re: &'a regex::Regex) -> (r: &'a str)
    ensures
        r@ == regex_pattern(*re),
;

/// Runs `Regex::captures` on `text` and copies out what each group captured, by
/// `Captures::iter` and `Match::as_str`. Nothing is proved of it: the contract names
/// the outcome as the one that the expression's pattern text and `text` decide.
#[verifier::external_body]
pub(crate) fn capture_groups(re: &regex::Regex, text: &str) -> (r: Option<Vec<Option<String>>>)
    requires
        regex_plain(*re),
    ensures
        r.deep_view() == regex_captures(regex_pattern(*re), text@),
{
    re.captures(text).map(
        |found| found.iter().map(|group| group.map(|m| m.as_str().to_string())).collect(),
    )
}

} // verus!
