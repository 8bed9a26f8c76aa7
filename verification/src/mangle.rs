use vstd::prelude::*;
use heck::CamelCase;
use heck::SnakeCase;

verus! {

/// The upper-camel-case form of an identifier, as heck computes it.
pub uninterp spec fn camel_of(s: Seq<char>) -> Seq<char>;

/// The lower-snake-case form of an identifier, as heck computes it.
pub uninterp spec fn snake_of(s: Seq<char>) -> Seq<char>;

/// Relies on heck's `CamelCase` impl for `str`: the upper-camel-case form
/// of the identifier, a function of its characters alone.
#[verifier::external_body]
pub fn to_camel(s: &str) -> (r: String)
    ensures
        r@ == camel_of(s@),
{
    s.to_camel_case()
}

/// Relies on heck's `SnakeCase` impl for `str`: the lower-snake-case form
/// of the identifier, a function of its characters alone.
#[verifier::external_body]
pub fn to_snake(s: &str) -> (r: String)
    ensures
        r@ == snake_of(s@),
{
    s.to_snake_case()
}

} // verus!
