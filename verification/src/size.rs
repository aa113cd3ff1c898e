//! Sizes in bytes as text for people.

use vstd::prelude::*;

verus! {

/// The text that `bytesize::to_string` gives for a count of bytes, with
/// decimal or binary units.
pub uninterp spec fn bytesize_text(bytes: u64, si_prefix: bool) -> Seq<char>;

/// The count below which `bytesize::to_string` writes plain bytes.
pub open spec fn plain_limit(si_prefix: bool) -> int {
    if si_prefix {
        1_024
    } else {
        1_000
    }
}

/// Formats a count of bytes with `bytesize::to_string`. The text is a
/// function of the two arguments; below the first unit it is the count
/// itself, followed by `" B"`.
#[verifier::external_body]
pub(crate) fn format_size(bytes: u64, si_prefix: bool) -> (text: String)
    ensures
        text@ == bytesize_text(bytes, si_prefix),
        bytes < plain_limit(si_prefix) ==> text@ == crate::text::decimal_text(bytes as int) + " B"@,
{
    bytesize::to_string(bytes, si_prefix)
}

} // verus!
