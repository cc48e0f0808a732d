//! The outside calls that identifier resolution and literal classification
//! lean on, each behind a contract: case folding for canonical identifiers
//! and factory keys, and the floating-point grammar check. Each result is
//! a function of the argument alone, so it is given a name that the rest
//! of the library's contracts speak of exactly.

use vstd::prelude::*;

verus! {

/// The snake-case form of `s`: lowercase, with word boundaries marked by
/// underscores.
pub uninterp spec fn snake_of(s: Seq<char>) -> Seq<char>;

/// The lowercase form of `s`.
pub uninterp spec fn lower_of(s: Seq<char>) -> Seq<char>;

/// Whether `s` is accepted by the floating-point literal grammar.
pub uninterp spec fn float_text_accepted(s: Seq<char>) -> bool;

/// Relies on heck's `ToSnakeCase::to_snake_case`: the snake-case
/// conversion depends on the characters of the input alone.
#[verifier::external_body]
pub fn snake_ident(s: &str) -> (r: String)
    ensures
        r@ == snake_of(s@),
{
    heck::ToSnakeCase::to_snake_case(s)
}

/// Relies on `str::to_lowercase`: the lowercase equivalent depends on the
/// characters of the input alone.
#[verifier::external_body]
pub(crate) fn lower_ident(s: &str) -> (r: String)
    ensures
        r@ == lower_of(s@),
{
    s.to_lowercase()
}

/// Relies on `syn::parse_str::<syn::LitFloat>`: whether the text is a
/// well-formed floating-point literal depends on the characters of the
/// input alone.
#[verifier::external_body]
pub(crate) fn float_text_ok(s: &str) -> (r: bool)
    ensures
        r == float_text_accepted(s@),
{
    syn::parse_str::<syn::LitFloat>(s).is_ok()
}

} // verus!
