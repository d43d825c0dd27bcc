use vstd::prelude::*;

verus! {

/// Whether a pattern matches somewhere in a text, in the pattern language of
/// the `regex` crate. None where the pattern is not accepted.
pub uninterp spec fn pattern_match(pattern: Seq<char>, text: Seq<char>) -> Option<bool>;

/// `regex::Regex::new` on the pattern, then `regex::Regex::is_match` on the
/// text. Both depend on their arguments alone: the same pattern is accepted
/// or refused every time, and an accepted pattern matches the same texts
/// every time. Nothing more is claimed of them.
#[verifier::external_body]
fn find_pattern(pattern: &str, text: &str) -> (r: Option<bool>)
    ensures
        r == pattern_match(pattern@, text@),
{
    match regex::Regex::new(pattern) {
        Ok(compiled) => Some(compiled.is_match(text)),
        Err(_) => None,
    }
}

/// The pattern of a recorded gesture in a text of test data: a touch path of
/// one point or more, each point two decimal numbers with a comma between
/// them and a colon before every point but the first; on the next line the
/// duration; on the line after that the name of the gesture type, with the
/// name of a direction behind it where the type has one.
pub fn test_data_text_pattern() -> (r: &'static str)
    ensures
        r@ == spec_test_data_text_pattern(),
{
    r"(?P<first_point>\d+\.\d+,\d+\.\d+)(?P<other_points>:(\d+\.\d+,\d+\.\d+))*\n(?P<duration>\d+)\n(?P<gesture_type>\w+( (?P<direction>\w+))?)"
}

/// The pattern of a recorded gesture.
pub open spec fn spec_test_data_text_pattern() -> Seq<char> {
    r"(?P<first_point>\d+\.\d+,\d+\.\d+)(?P<other_points>:(\d+\.\d+,\d+\.\d+))*\n(?P<duration>\d+)\n(?P<gesture_type>\w+( (?P<direction>\w+))?)"@
}

/// Whether a text of test data holds a recorded gesture. None where the
/// pattern of a recorded gesture is not accepted.
pub fn holds_recorded_gesture(file_contents: &str) -> (r: Option<bool>)
    ensures
        r == pattern_match(spec_test_data_text_pattern(), file_contents@),
{
    find_pattern(test_data_text_pattern(), file_contents)
}

} // verus!
