//! Validation of the value given to `--time-limit`: a non-negative whole
//! number followed by a unit of `s`, `m`, `h` or `d`, in either case.

use vstd::prelude::*;

verus! {

/// What the `regex` crate answers for `Regex::new(pattern)?.is_match(haystack)`:
/// whether `haystack` holds a match of `pattern`, with the crate's default
/// options (Unicode-aware classes, simple case folding, `$` at the very end).
pub uninterp spec fn regex_is_match(pattern: Seq<char>, haystack: Seq<char>) -> bool;

/// The pattern that a time spec must match.
pub open spec fn time_spec_pattern() -> Seq<char> {
    r"^(?i)(?P<n>\d+)(?P<m>[smdh])$"@
}

pub open spec fn is_ascii_digit(c: char) -> bool {
    '0' <= c && c <= '9'
}

/// A unit of time: seconds, minutes, hours or days, in either case.
pub open spec fn is_time_unit(c: char) -> bool {
    c == 's' || c == 'm' || c == 'h' || c == 'd' || c == 'S' || c == 'M' || c == 'H' || c == 'D'
}

pub open spec fn all_ascii(s: Seq<char>) -> bool {
    forall|i: int| 0 <= i < s.len() ==> (#[trigger] s[i]) < '\u{80}'
}

/// On ASCII text the pattern reads: one or more digits, then one unit, and
/// nothing before or after.
pub open spec fn ascii_time_spec(s: Seq<char>) -> bool {
    &&& s.len() >= 2
    &&& forall|i: int| 0 <= i < s.len() - 1 ==> is_ascii_digit(#[trigger] s[i])
    &&& is_time_unit(s.last())
}

/// The text of the refusal of `time_spec`.
pub open spec fn time_spec_refusal(time_spec: Seq<char>) -> Seq<char> {
    "Expected a non-negative, whole number followed by s, m, h, or d (case insensitive); received "@
        + time_spec
}

/// Calls `regex::Regex::new(pattern)` and then `is_match(haystack)` on it.
/// The result is named by `regex_is_match`. For the time-spec pattern, which
/// compiles, the crate's documented syntax (`\d` is `\p{Nd}`, whose only ASCII
/// members are `0`-`9`; `(?i)` folds `[smdh]` to `smdhSMDH` and, outside ASCII,
/// `ſ`; `^` and `$` anchor to the ends of the haystack) gives the answer on
/// ASCII haystacks, which the second clause states. Outside ASCII nothing more
/// than the name is stated.
#[verifier::external_body]
fn regex_match(pattern: &str, haystack: &str) -> (matched: bool)
    requires
        pattern@ == time_spec_pattern(),
    ensures
        matched == regex_is_match(pattern@, haystack@),
        all_ascii(haystack@) ==> (matched <==> ascii_time_spec(haystack@)),
{
    regex::Regex::new(pattern).expect("Could not compile regex").is_match(haystack)
}

/// Answers a time spec once it is known whether it matched the pattern.
pub fn time_spec_verdict(time_spec: &str, matched: bool) -> (res: Result<(), String>)
    ensures
        matched ==> res == Ok::<(), String>(()),
        !matched ==> (res matches Err(msg) && msg@ == time_spec_refusal(time_spec@)),
{
    if matched {
        Ok(())
    } else {
        let msg = String::from_str(
            "Expected a non-negative, whole number followed by s, m, h, or d (case insensitive); received ",
        );
        let msg = msg.concat(time_spec);
        Err(msg)
    }
}

/// Validate that a string is formatted as a number followed by s, m, h, or d
/// (10d, 30s, etc...).
pub fn valid_time_spec(time_spec: &str) -> (res: Result<(), String>)
    ensures
        res is Ok <==> regex_is_match(time_spec_pattern(), time_spec@),
        all_ascii(time_spec@) ==> (res is Ok <==> ascii_time_spec(time_spec@)),
        res matches Err(msg) ==> msg@ == time_spec_refusal(time_spec@),
{
    let pattern = r"^(?i)(?P<n>\d+)(?P<m>[smdh])$";
    let matched = regex_match(pattern, time_spec);
    time_spec_verdict(time_spec, matched)
}

} // verus!
