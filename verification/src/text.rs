use vstd::prelude::*;

verus! {

/// `<str as PartialEq>::eq` of std: two string slices compare equal exactly when
/// they hold the same characters.
#[verifier::external_body]
pub(crate) fn str_eq(a: &str, b: &str) -> (r: bool)
    ensures
        r == (a@ == b@),
{
    a == b
}

} // verus!
