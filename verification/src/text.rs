//! Putting messages together.

use vstd::prelude::*;
use vstd::string::*;

verus! {

/// A text as Rust shows it for debugging: between double quotes, with the
/// characters that need it escaped.
pub uninterp spec fn debug_text(text: Seq<char>) -> Seq<char>;

/// `Debug` formatting of a string slice, as `format!` does it for `{:?}`. The
/// outcome depends on the text alone; nothing else is claimed of it.
#[verifier::external_body]
pub(crate) fn quoted(text: &str) -> (shown: String)
    ensures
        shown@ == debug_text(text@),
{
    format!("{:?}", text)
}

/// The three texts one after the other.
pub fn phrase(head: &str, subject: &str, tail: &str) -> (whole: String)
    ensures
        whole@ == head@ + subject@ + tail@,
{
    let mut whole = String::from_str(head);
    whole.append(subject);
    whole.append(tail);
    whole
}

/// The four texts one after the other.
pub fn sentence(head: &str, subject: &str, link: &str, tail: &str) -> (whole: String)
    ensures
        whole@ == head@ + subject@ + link@ + tail@,
{
    let mut whole = String::from_str(head);
    whole.append(subject);
    whole.append(link);
    whole.append(tail);
    whole
}

} // verus!
