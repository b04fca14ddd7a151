use vstd::prelude::*;

verus! {

/// The word-capitalized, separator-free spelling of a declared name: the
/// convention this backend uses for type and variant identifiers.
pub uninterp spec fn camel_of(s: Seq<char>) -> Seq<char>;

/// The lowercase, underscore-separated spelling of a declared name: the
/// convention this backend uses for field identifiers.
pub uninterp spec fn snake_of(s: Seq<char>) -> Seq<char>;

/// Relies on heck's `CamelCase` for `str`: the result is computed from the
/// input characters alone (word segmentation plus per-word capitalization).
#[verifier::external_body]
pub(crate) fn to_camel(s: &str) -> (r: String)
    ensures
        r@ == camel_of(s@),
{
    heck::CamelCase::to_camel_case(s)
}

/// Relies on heck's `SnakeCase` for `str`: the result is computed from the
/// input characters alone (word segmentation plus lowercasing, words joined
/// by underscores).
#[verifier::external_body]
pub(crate) fn to_snake(s: &str) -> (r: String)
    ensures
        r@ == snake_of(s@),
{
    heck::SnakeCase::to_snake_case(s)
}

} // verus!
