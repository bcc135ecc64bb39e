//! Per-locale word tables: the English unit words (0 through 19) and the
//! English tens words (twenty, thirty, ..., ninety), stored in title case.

use vstd::prelude::*;

verus! {

/// The English unit word for a magnitude below twenty, in title case.
pub open spec fn en_unit(n: nat) -> Seq<char>
    recommends
        n < 20,
{
    if n == 0 {
        "Zero"@
    } else if n == 1 {
        "One"@
    } else if n == 2 {
        "Two"@
    } else if n == 3 {
        "Three"@
    } else if n == 4 {
        "Four"@
    } else if n == 5 {
        "Five"@
    } else if n == 6 {
        "Six"@
    } else if n == 7 {
        "Seven"@
    } else if n == 8 {
        "Eight"@
    } else if n == 9 {
        "Nine"@
    } else if n == 10 {
        "Ten"@
    } else if n == 11 {
        "Eleven"@
    } else if n == 12 {
        "Twelve"@
    } else if n == 13 {
        "Thirteen"@
    } else if n == 14 {
        "Fourteen"@
    } else if n == 15 {
        "Fifteen"@
    } else if n == 16 {
        "Sixteen"@
    } else if n == 17 {
        "Seventeen"@
    } else if n == 18 {
        "Eighteen"@
    } else {
        "Nineteen"@
    }
}

/// The English tens word for a tens digit between two and nine, in title case.
pub open spec fn en_ten(t: nat) -> Seq<char>
    recommends
        2 <= t <= 9,
{
    if t == 2 {
        "Twenty"@
    } else if t == 3 {
        "Thirty"@
    } else if t == 4 {
        "Forty"@
    } else if t == 5 {
        "Fifty"@
    } else if t == 6 {
        "Sixty"@
    } else if t == 7 {
        "Seventy"@
    } else if t == 8 {
        "Eighty"@
    } else {
        "Ninety"@
    }
}

/// Looks an English unit word up in the table.
pub fn english_unit(n: u64) -> (r: &'static str)
    requires
        n < 20,
    ensures
        r@ == en_unit(n as nat),
{
    if n == 0 {
        "Zero"
    } else if n == 1 {
        "One"
    } else if n == 2 {
        "Two"
    } else if n == 3 {
        "Three"
    } else if n == 4 {
        "Four"
    } else if n == 5 {
        "Five"
    } else if n == 6 {
        "Six"
    } else if n == 7 {
        "Seven"
    } else if n == 8 {
        "Eight"
    } else if n == 9 {
        "Nine"
    } else if n == 10 {
        "Ten"
    } else if n == 11 {
        "Eleven"
    } else if n == 12 {
        "Twelve"
    } else if n == 13 {
        "Thirteen"
    } else if n == 14 {
        "Fourteen"
    } else if n == 15 {
        "Fifteen"
    } else if n == 16 {
        "Sixteen"
    } else if n == 17 {
        "Seventeen"
    } else if n == 18 {
        "Eighteen"
    } else {
        "Nineteen"
    }
}

/// Looks an English tens word up in the table.
pub fn english_ten(t: u64) -> (r: &'static str)
    requires
        2 <= t <= 9,
    ensures
        r@ == en_ten(t as nat),
{
    if t == 2 {
        "Twenty"
    } else if t == 3 {
        "Thirty"
    } else if t == 4 {
        "Forty"
    } else if t == 5 {
        "Fifty"
    } else if t == 6 {
        "Sixty"
    } else if t == 7 {
        "Seventy"
    } else if t == 8 {
        "Eighty"
    } else {
        "Ninety"
    }
}

} // verus!
