//! Small verified string helpers, and the one std string conversion that the
//! request validators lean on.
use vstd::prelude::*;
use vstd::string::*;

verus! {

/// What `str::to_lowercase` returns for a string: its lowercase equivalent
/// under the Unicode `Lowercase` derived core property. The mapping is given
/// by Unicode tables, so it is named here rather than written out.
pub uninterp spec fn lowercase(s: Seq<char>) -> Seq<char>;

/// Calls `str::to_lowercase`. The contract claims only that the result is a
/// function of the characters of `s`, named `lowercase`.
#[verifier::external_body]
pub(crate) fn to_lowercase(s: &str) -> (r: String)
    ensures
        r@ == lowercase(s@),
{
    s.to_lowercase()
}

/// Character-wise equality of two string slices.
pub fn str_equals(a: &str, b: &str) -> (r: bool)
    ensures
        r == (a@ == b@),
{
    let sa = String::from_str(a);
    let sb = String::from_str(b);
    sa == sb
}

} // verus!
