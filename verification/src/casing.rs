//! The modifier pipeline: applies the requested letter case to the assembled
//! phrase, once, after full assembly.
//!
//! Title case passes the phrase through unchanged; it relies on the word
//! tables already storing every token pre-capitalized.

use vstd::prelude::*;

verus! {

/// The letter case applied to the assembled phrase.
#[derive(Debug, Copy, Clone, PartialEq, Eq, Hash, Structural)]
pub enum Case {
    Lower,
    Upper,
    Title,
}

/// The Unicode lowercase folding of a sequence of characters, as
/// `str::to_lowercase` computes it.
pub uninterp spec fn lower_of(s: Seq<char>) -> Seq<char>;

/// The Unicode uppercase folding of a sequence of characters, as
/// `str::to_uppercase` computes it.
pub uninterp spec fn upper_of(s: Seq<char>) -> Seq<char>;

/// Relies on str::to_lowercase: the result depends on the characters alone.
#[verifier::external_body]
fn to_lowercase(s: &str) -> (r: String)
    ensures
        r@ == lower_of(s@),
{
    s.to_lowercase()
}

/// Relies on str::to_uppercase: the result depends on the characters alone.
#[verifier::external_body]
fn to_uppercase(s: &str) -> (r: String)
    ensures
        r@ == upper_of(s@),
{
    s.to_uppercase()
}

/// The phrase after the case fold: lowercase folding, uppercase folding, or,
/// for title case, the phrase unchanged.
pub open spec fn cased(case: Case, s: Seq<char>) -> Seq<char> {
    match case {
        Case::Lower => lower_of(s),
        Case::Upper => upper_of(s),
        Case::Title => s,
    }
}

/// Folds the assembled phrase to the requested case.
pub fn apply_case(case: Case, s: String) -> (r: String)
    ensures
        r@ == cased(case, s@),
{
    match case {
        Case::Lower => to_lowercase(s.as_str()),
        Case::Upper => to_uppercase(s.as_str()),
        Case::Title => s,
    }
}

} // verus!
