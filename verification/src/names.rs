//! Identifier case conversion for generated variant names.

use convert_case::Casing;
use vstd::prelude::*;

verus! {

/// The character sequence that upper-camel-case conversion produces for `s`.
pub uninterp spec fn upper_camel_of(s: Seq<char>) -> Seq<char>;

/// Relies on convert_case's `Casing::to_case` with `Case::UpperCamel`: the
/// result is a pure function of the input characters.
#[verifier::external_body]
pub fn to_upper_camel(s: &str) -> (r: String)
    ensures
        r@ == upper_camel_of(s@),
{
    s.to_case(convert_case::Case::UpperCamel)
}

} // verus!
