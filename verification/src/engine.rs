//! The decomposition engine: turns a magnitude into an un-cased phrase for a
//! given locale and number type.
//!
//! The English cardinal algorithm is band-based and recursive. Magnitudes
//! below twenty come straight from the unit table; below one hundred the
//! tens word is looked up and a non-zero unit is hyphenated on; every higher
//! band uses the same combinator: spell the count of scale units, append the
//! scale word, and, when a remainder is left, append " and " and the spelled
//! remainder. Magnitudes of one trillion or more are out of range.

use vstd::prelude::*;
use vstd::arithmetic::div_mod::{lemma_div_decreases, lemma_mod_division_less_than_divisor};
use vstd::string::*;

use crate::words::{en_unit, en_ten, english_unit, english_ten};

verus! {

/// A typed spellout failure. Exactly one error kind identifies the first
/// unmet precondition: locale existence, then number-type support, then range.
#[derive(Debug, PartialEq, Eq, Structural)]
pub enum Error {
    UnsupportedLocale,
    UnsupportedNumberType,
    NumberOutOfRange,
}

/// The least magnitude beyond the supported English cardinal range.
pub open spec fn en_cardinal_limit() -> nat {
    1_000_000_000_000
}

/// The divisor of the band a magnitude of one hundred or more falls in.
pub open spec fn en_divisor(n: nat) -> nat
    recommends
        n >= 100,
{
    if n < 1_000 {
        100
    } else if n < 1_000_000 {
        1_000
    } else if n < 1_000_000_000 {
        1_000_000
    } else {
        1_000_000_000
    }
}

/// The scale word of the band a magnitude of one hundred or more falls in.
pub open spec fn en_scale_word(n: nat) -> Seq<char>
    recommends
        n >= 100,
{
    if n < 1_000 {
        "Hundred"@
    } else if n < 1_000_000 {
        "Thousand"@
    } else if n < 1_000_000_000 {
        "Million"@
    } else {
        "Billion"@
    }
}

/// The uniform combinator of the higher bands: the spelled count, the scale
/// word, and, unless the remainder is zero, " and " and the spelled remainder.
pub open spec fn en_beyond(count: Seq<char>, scale_word: Seq<char>, remainder: Seq<char>, exact: bool) -> Seq<char> {
    if exact {
        count + " "@ + scale_word
    } else {
        count + " "@ + scale_word + " and "@ + remainder
    }
}

/// The English cardinal phrase of a magnitude, in title case.
///
/// The recursion strictly reduces the magnitude, through division or
/// remainder, until the unit table is reached. The function is total;
/// executable spellout rejects magnitudes at or above `en_cardinal_limit`
/// before this phrase is ever built for them.
pub open spec fn en_cardinal(n: nat) -> Seq<char>
    decreases n,
{
    if n < 20 {
        en_unit(n)
    } else if n < 100 {
        if n % 10 == 0 {
            en_ten(n / 10)
        } else {
            en_ten(n / 10) + "-"@ + en_cardinal(n % 10)
        }
    } else {
        let d = en_divisor(n);
        proof {
            lemma_div_decreases(n as int, d as int);
            lemma_mod_division_less_than_divisor(n as int, d as int);
        }
        en_beyond(en_cardinal(n / d), en_scale_word(n), en_cardinal(n % d), n % d == 0)
    }
}

/// The English ordinal strategy covers only the demonstrated value two.
pub open spec fn en_ordinal_in_range(n: nat) -> bool {
    n == 2
}

/// The English ordinal phrase of a supported magnitude, in title case.
pub open spec fn en_ordinal(n: nat) -> Seq<char>
    recommends
        en_ordinal_in_range(n),
{
    "Second"@
}

/// The Swedish cardinal strategy covers only the demonstrated values two and three.
pub open spec fn sv_cardinal_in_range(n: nat) -> bool {
    n == 2 || n == 3
}

/// The Swedish cardinal phrase of a supported magnitude, in title case.
pub open spec fn sv_cardinal(n: nat) -> Seq<char>
    recommends
        sv_cardinal_in_range(n),
{
    if n == 2 {
        "Två"@
    } else {
        "Tre"@
    }
}

/// Spells an English cardinal. The reserved `format` modifier is not yet
/// interpreted by any strategy.
#[allow(unused_variables)]
pub fn number_en_cardinal(num: u64, format: &str) -> (r: Result<String, Error>)
    ensures
        r is Ok <==> num < en_cardinal_limit(),
        r matches Ok(s) ==> s@ == en_cardinal(num as nat),
        r matches Err(e) ==> e is NumberOutOfRange,
{
    number_en_cardinal_helper(num)
}

/// Spells an English cardinal magnitude by band-based recursive decomposition.
pub fn number_en_cardinal_helper(num: u64) -> (r: Result<String, Error>)
    ensures
        r is Ok <==> num < en_cardinal_limit(),
        r matches Ok(s) ==> s@ == en_cardinal(num as nat),
        r matches Err(e) ==> e is NumberOutOfRange,
    decreases num, 1nat,
{
    if num < 20 {
        Ok(english_unit(num).to_owned())
    } else if num < 100 {
        let tens: u64 = num / 10;
        let units: u64 = num % 10;
        let tens_str = english_ten(tens).to_owned();
        if units == 0 {
            Ok(tens_str)
        } else {
            let ones = match number_en_cardinal_helper(units) {
                Ok(s) => s,
                Err(e) => return Err(e),
            };
            Ok(tens_str.concat("-").concat(ones.as_str()))
        }
    } else if num < 1_000 {
        beyond_tens(num, 100, "Hundred")
    } else if num < 1_000_000 {
        beyond_tens(num, 1_000, "Thousand")
    } else if num < 1_000_000_000 {
        beyond_tens(num, 1_000_000, "Million")
    } else if num < 1_000_000_000_000 {
        beyond_tens(num, 1_000_000_000, "Billion")
    } else {
        Err(Error::NumberOutOfRange)
    }
}

/// The higher-band combinator: spells the count of scale units, appends the
/// scale word, and, when a remainder is left, " and " and the spelled remainder.
pub fn beyond_tens(num: u64, divisor: u64, word: &str) -> (r: Result<String, Error>)
    requires
        2 <= divisor <= num,
    ensures
        r is Ok <==> (num / divisor < en_cardinal_limit() && num % divisor < en_cardinal_limit()),
        r matches Ok(s) ==> s@ == en_beyond(
            en_cardinal((num / divisor) as nat),
            word@,
            en_cardinal((num % divisor) as nat),
            num % divisor == 0,
        ),
        r matches Err(e) ==> e is NumberOutOfRange,
    decreases num, 0nat,
{
    let divided: u64 = num / divisor;
    let remainder: u64 = num % divisor;
    proof {
        lemma_div_decreases(num as int, divisor as int);
        lemma_mod_division_less_than_divisor(num as int, divisor as int);
    }
    let count = match number_en_cardinal_helper(divided) {
        Ok(s) => s,
        Err(e) => return Err(e),
    };
    let s = count.concat(" ").concat(word);
    if remainder == 0 {
        Ok(s)
    } else {
        let remainder_str = match number_en_cardinal_helper(remainder) {
            Ok(s) => s,
            Err(e) => return Err(e),
        };
        Ok(s.concat(" and ").concat(remainder_str.as_str()))
    }
}

/// Spells an English ordinal; only the demonstrated value two is covered.
/// The reserved `format` modifier is not yet interpreted by any strategy.
#[allow(unused_variables)]
pub fn number_en_ordinal(num: u64, format: &str) -> (r: Result<String, Error>)
    ensures
        r is Ok <==> en_ordinal_in_range(num as nat),
        r matches Ok(s) ==> s@ == en_ordinal(num as nat),
        r matches Err(e) ==> e is NumberOutOfRange,
{
    if num == 2 {
        Ok("Second".to_owned())
    } else {
        Err(Error::NumberOutOfRange)
    }
}

/// Spells a Swedish cardinal; only the demonstrated values two and three are
/// covered. The reserved `format` modifier is not yet interpreted by any strategy.
#[allow(unused_variables)]
pub fn number_sv_cardinal(num: u64, format: &str) -> (r: Result<String, Error>)
    ensures
        r is Ok <==> sv_cardinal_in_range(num as nat),
        r matches Ok(s) ==> s@ == sv_cardinal(num as nat),
        r matches Err(e) ==> e is NumberOutOfRange,
{
    if num == 2 {
        Ok("Två".to_owned())
    } else if num == 3 {
        Ok("Tre".to_owned())
    } else {
        Err(Error::NumberOutOfRange)
    }
}

} // verus!
