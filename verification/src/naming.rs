//! Constructor names: snake case of the variant name, through `heck`.

use heck::ToSnakeCase;
use vstd::prelude::*;

verus! {

/// What `heck`'s `to_snake_case` returns for the given text.
pub uninterp spec fn heck_snake_case(s: Seq<char>) -> Seq<char>;

/// Calls `heck::ToSnakeCase::to_snake_case` on `s`. The contract claims
/// only that the result is a function of `s` alone, named
/// `heck_snake_case`; the word-splitting rules are not restated.
#[verifier::external_body]
pub(crate) fn to_snake_case(s: &str) -> (res: String)
    ensures
        res@ == heck_snake_case(s@),
{
    s.to_snake_case()
}

} // verus!
