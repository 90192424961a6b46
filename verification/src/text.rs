//! Strings as the standard library prints them for inspection.

use vstd::prelude::*;

verus! {

/// What `{:?}` prints for a string: the string between double quotes, with the
/// characters that would not read back as themselves escaped.
pub uninterp spec fn debug_text(text: Seq<char>) -> Seq<char>;

/// The `Debug` form of a string, from `format!` with `{:?}`. It depends on the
/// characters of the string and on nothing else.
#[verifier::external_body]
pub(crate) fn quoted(text: &str) -> (quoted: String)
    ensures
        quoted@ == debug_text(text@),
{
    format!("{:?}", text)
}

} // verus!
