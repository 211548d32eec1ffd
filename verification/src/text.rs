//! Small helpers on the words of a command.

use vstd::prelude::*;

verus! {

/// The number that a text denotes in decimal, if it denotes one that fits.
pub uninterp spec fn number_of_text(text: Seq<char>) -> Option<u64>;

/// `str::parse::<u64>`: the number that the text denotes in decimal, or
/// `None` where it denotes none that fits a `u64`.
#[verifier::external_body]
pub(crate) fn parse_number(text: &str) -> (r: Option<u64>)
    ensures
        r == number_of_text(text@),
{
    text.parse::<u64>().ok()
}

/// Whether two texts are the same.
pub fn same_text(a: &str, b: &str) -> (r: bool)
    ensures
        r == (a@ == b@),
{
    a.to_owned() == b.to_owned()
}

/// The truth value that a text names: `true` or `false`, spelled so.
pub open spec fn truth_of_text(text: Seq<char>) -> Option<bool> {
    if text == "true"@ {
        Some(true)
    } else if text == "false"@ {
        Some(false)
    } else {
        None
    }
}

/// The truth value that a text names, if it names one.
pub fn parse_truth(text: &str) -> (r: Option<bool>)
    ensures
        r == truth_of_text(text@),
{
    if same_text(text, "true") {
        Some(true)
    } else if same_text(text, "false") {
        Some(false)
    } else {
        None
    }
}

} // verus!
