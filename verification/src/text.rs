//! What an error message reports.

use vstd::prelude::*;
use vstd::utf8::is_ascii_chars;

verus! {

/// What `str::to_lowercase` makes of a text.
pub uninterp spec fn lowercase(text: Seq<char>) -> Seq<char>;

/// The text with the ASCII letters `A` to `Z` mapped to `a` to `z`.
pub open spec fn ascii_lowercase(text: Seq<char>) -> Seq<char> {
    Seq::new(
        text.len(),
        |i: int| if 'A' <= text[i] && text[i] <= 'Z' { (text[i] as u32 + 32) as char } else { text[i] },
    )
}

/// `str::to_lowercase` depends on the text alone, and of a text of ASCII characters it lowers
/// exactly the letters.
pub assume_specification[ str::to_lowercase ](text: &str) -> (lowered: String)
    ensures
        lowered@ == lowercase(text@),
        is_ascii_chars(text@) ==> lowered@ == ascii_lowercase(text@),
;

/// `needle` stands in `text` at position `at`.
pub open spec fn occurs_at(text: Seq<char>, needle: Seq<char>, at: int) -> bool {
    &&& 0 <= at
    &&& at + needle.len() <= text.len()
    &&& text.subrange(at, at + needle.len()) == needle
}

/// `needle` stands somewhere in `text`.
pub open spec fn contains_text(text: Seq<char>, needle: Seq<char>) -> bool {
    exists|at: int| occurs_at(text, needle, at)
}

/// `str::contains` with a string pattern: whether the pattern is a part of the text.
#[verifier::external_body]
fn contains(text: &str, needle: &str) -> (found: bool)
    ensures
        found == contains_text(text@, needle@),
{
    text.contains(needle)
}

/// A lowered message that reports a refused microphone.
pub open spec fn denies_access(lowered: Seq<char>) -> bool {
    ||| contains_text(lowered, "access is denied"@)
    ||| contains_text(lowered, "permission denied"@)
    ||| contains_text(lowered, "0x80070005"@)
}

/// A lowered message that reports that there is no microphone.
pub open spec fn reports_no_device(lowered: Seq<char>) -> bool {
    ||| contains_text(lowered, "no input device found"@)
    ||| contains_text(lowered, "failed to fetch preferred config"@) && contains_text(
        lowered,
        "coreaudio"@,
    )
}

/// Whether a message that is already in lower case reports a refused microphone.
pub fn lowered_denies_access(lowered: &str) -> (denied: bool)
    ensures
        denied == denies_access(lowered@),
{
    contains(lowered, "access is denied") || contains(lowered, "permission denied") || contains(
        lowered,
        "0x80070005",
    )
}

/// Whether a message that is already in lower case reports that there is no microphone.
pub fn lowered_reports_no_device(lowered: &str) -> (missing: bool)
    ensures
        missing == reports_no_device(lowered@),
{
    contains(lowered, "no input device found") || (contains(
        lowered,
        "failed to fetch preferred config",
    ) && contains(lowered, "coreaudio"))
}

/// Whether an error message, in any case, reports that access to the microphone was refused.
pub fn is_microphone_access_denied(error_message: &str) -> (denied: bool)
    ensures
        denied == denies_access(lowercase(error_message@)),
        is_ascii_chars(error_message@) ==> denied == denies_access(
            ascii_lowercase(error_message@),
        ),
{
    let normalized = error_message.to_lowercase();
    lowered_denies_access(normalized.as_str())
}

/// Whether an error message, in any case, reports that there is no input device.
pub fn is_no_input_device_error(error_message: &str) -> (missing: bool)
    ensures
        missing == reports_no_device(lowercase(error_message@)),
        is_ascii_chars(error_message@) ==> missing == reports_no_device(
            ascii_lowercase(error_message@),
        ),
{
    let normalized = error_message.to_lowercase();
    lowered_reports_no_device(normalized.as_str())
}

/// The case of letters does not matter: ASCII messages that differ only in it are told the same
/// way.
pub proof fn letter_case_does_not_matter(one: Seq<char>, other: Seq<char>)
    requires
        is_ascii_chars(one),
        is_ascii_chars(other),
        ascii_lowercase(one) == ascii_lowercase(other),
    ensures
        denies_access(ascii_lowercase(one)) == denies_access(ascii_lowercase(other)),
        reports_no_device(ascii_lowercase(one)) == reports_no_device(ascii_lowercase(other)),
        ascii_lowercase(ascii_lowercase(one)) == ascii_lowercase(one),
{
    assert(ascii_lowercase(ascii_lowercase(one)) =~= ascii_lowercase(one));
}

/// A message says no less for the words around it: what is recognised in a part is recognised in
/// the whole.
pub proof fn more_words_hide_nothing(before: Seq<char>, part: Seq<char>, after: Seq<char>)
    ensures
        denies_access(part) ==> denies_access(before + part + after),
        reports_no_device(part) ==> reports_no_device(before + part + after),
{
    let whole = before + part + after;
    assert forall|needle: Seq<char>| #[trigger] contains_text(part, needle) implies contains_text(
        whole,
        needle,
    ) by {
        text_within_a_part(before, part, after, needle);
    }
}

/// What stands in a part stands in the whole.
pub(crate) proof fn text_within_a_part(
    before: Seq<char>,
    part: Seq<char>,
    after: Seq<char>,
    needle: Seq<char>,
)
    requires
        contains_text(part, needle),
    ensures
        contains_text(before + part + after, needle),
{
    let whole = before + part + after;
    let at = choose|at: int| occurs_at(part, needle, at);
    let place = before.len() + at;
    assert(whole.subrange(place, place + needle.len()) =~= part.subrange(at, at + needle.len()));
    assert(occurs_at(whole, needle, place));
}

/// A text contains another exactly if it is made of something, the other, and something more.
pub proof fn a_part_has_something_before_and_behind(text: Seq<char>, needle: Seq<char>)
    ensures
        contains_text(text, needle) <==> exists|before: Seq<char>, after: Seq<char>|
            text == #[trigger] (before + needle + after),
{
    if contains_text(text, needle) {
        let at = choose|at: int| occurs_at(text, needle, at);
        let before = text.take(at);
        let after = text.skip(at + needle.len());
        assert forall|i: int| 0 <= i < text.len() implies text[i] == (before + needle + after)[i] by {
            if at <= i < at + needle.len() {
                assert(text.subrange(at, at + needle.len())[i - at] == needle[i - at]);
            }
        }
        assert(text =~= before + needle + after);
    }
    if exists|before: Seq<char>, after: Seq<char>| text == #[trigger] (before + needle + after) {
        let (before, after) = choose|before: Seq<char>, after: Seq<char>|
            text == #[trigger] (before + needle + after);
        assert(needle.subrange(0, needle.len() as int) =~= needle);
        assert(occurs_at(needle, needle, 0));
        text_within_a_part(before, needle, after, needle);
    }
}

/// A lowered message reports a refused microphone exactly if it holds one of the three phrases
/// that systems use for it.
pub proof fn three_phrases_report_a_refusal(lowered: Seq<char>)
    ensures
        denies_access(lowered) <==> {
            ||| contains_text(lowered, "access is denied"@)
            ||| contains_text(lowered, "permission denied"@)
            ||| contains_text(lowered, "0x80070005"@)
        },
{
}

/// A lowered message reports a missing microphone exactly if it says so, or if CoreAudio is named
/// in it for a configuration that could not be fetched; neither half of the latter is enough.
pub proof fn a_missing_microphone_is_reported_in_two_ways(lowered: Seq<char>)
    ensures
        contains_text(lowered, "no input device found"@) ==> reports_no_device(lowered),
        contains_text(lowered, "failed to fetch preferred config"@) && contains_text(
            lowered,
            "coreaudio"@,
        ) ==> reports_no_device(lowered),
        reports_no_device(lowered) && !contains_text(lowered, "no input device found"@)
            ==> contains_text(lowered, "failed to fetch preferred config"@) && contains_text(
            lowered,
            "coreaudio"@,
        ),
{
}

/// Lowering keeps every character in its place, and changes exactly the capital letters.
pub proof fn lowering_changes_exactly_the_capitals(text: Seq<char>, place: int)
    requires
        0 <= place < text.len(),
    ensures
        ascii_lowercase(text).len() == text.len(),
        'A' <= text[place] <= 'Z' ==> ascii_lowercase(text)[place] as int == text[place] as int + (
        'a' as int - 'A' as int),
        !('A' <= text[place] <= 'Z') ==> ascii_lowercase(text)[place] == text[place],
{
}

} // verus!
