//! Text: copies of string slices, and strings as `Debug` shows them.

use vstd::prelude::*;

verus! {

/// The form in which `Debug` shows a string: between double quotes, with the
/// characters that cannot stand there as they are written as escapes.
pub uninterp spec fn debug_form(text: Seq<char>) -> Seq<char>;

/// A string in the form in which `Debug` shows it.
///
/// Formats the slice with `{:?}`, that is with `str`'s `Debug::fmt` from the
/// standard library. The contract gives the result its name, [`debug_form`] of
/// the slice's characters: the same characters always give the same form. The
/// verifier takes this on trust and knows nothing else of the form.
#[verifier::external_body]
pub(crate) fn quoted(text: &str) -> (form: String)
    ensures
        form@ == debug_form(text@),
{
    format!("{:?}", text)
}

/// An owned copy of a string slice.
pub(crate) fn owned(s: &str) -> (r: String)
    ensures
        r@ == s@,
{
    s.to_owned()
}

} // verus!
