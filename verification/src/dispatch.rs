//! The locale/type dispatcher: resolves a (locale, number type) pair to a
//! decomposition strategy, or fails, and ties strategy, case and format
//! together into a reusable spellout value.
//!
//! Locale-tag parsing and canonicalization are an external collaborator's
//! job; the engine consumes only the canonical primary language subtag.

use vstd::prelude::*;

use crate::casing::{apply_case, cased, Case};
use crate::engine::{
    en_cardinal, en_cardinal_limit, en_ordinal, en_ordinal_in_range, number_en_cardinal,
    number_en_ordinal, number_sv_cardinal, sv_cardinal, sv_cardinal_in_range, Error,
};

verus! {

/// A locale, reduced to the canonical primary language subtag that the
/// engine dispatches on; region and script are ignored.
pub struct Locale {
    pub lang: String,
}

impl Locale {
    /// Builds a locale from its canonical primary language subtag.
    pub fn new(lang: &str) -> (r: Self)
        ensures
            r.lang@ == lang@,
    {
        Locale { lang: lang.to_owned() }
    }
}

/// Whether a number is spelled as a counting or a ranking word.
pub enum NumberType {
    Cardinal,
    Ordinal,
}

/// The immutable formatting modifiers of one spellout request. The reserved
/// `format` field is an uninterpreted placeholder for future locale-specific
/// numbering conventions.
pub struct NumberModifier {
    pub number_type: NumberType,
    pub case: Case,
    pub format: String,
}

impl NumberModifier {
    pub fn new(number_type: NumberType, case: Case, format: String) -> (r: Self)
        ensures
            r.number_type == number_type,
            r.case == case,
            r.format == format,
    {
        NumberModifier { number_type, case, format }
    }
}

/// A decomposition strategy, registered for one (locale, number type) pair.
#[derive(Debug, Copy, Clone)]
pub enum Strategy {
    EnCardinal,
    EnOrdinal,
    SvCardinal,
}

/// Whether a strategy supports a magnitude.
pub open spec fn strategy_in_range(strategy: Strategy, n: nat) -> bool {
    match strategy {
        Strategy::EnCardinal => n < en_cardinal_limit(),
        Strategy::EnOrdinal => en_ordinal_in_range(n),
        Strategy::SvCardinal => sv_cardinal_in_range(n),
    }
}

/// The un-cased phrase a strategy assembles for a supported magnitude.
pub open spec fn strategy_phrase(strategy: Strategy, n: nat) -> Seq<char>
    recommends
        strategy_in_range(strategy, n),
{
    match strategy {
        Strategy::EnCardinal => en_cardinal(n),
        Strategy::EnOrdinal => en_ordinal(n),
        Strategy::SvCardinal => sv_cardinal(n),
    }
}

/// Whether a (primary language subtag, number type) pair resolves to a strategy.
pub open spec fn resolves(lang: Seq<char>, number_type: NumberType) -> bool {
    lang == "en"@ || (lang == "sv"@ && number_type is Cardinal)
}

/// The strategy a supported (primary language subtag, number type) pair
/// resolves to.
pub open spec fn resolved_strategy(lang: Seq<char>, number_type: NumberType) -> Strategy
    recommends
        resolves(lang, number_type),
{
    if lang == "en"@ {
        match number_type {
            NumberType::Cardinal => Strategy::EnCardinal,
            NumberType::Ordinal => Strategy::EnOrdinal,
        }
    } else {
        Strategy::SvCardinal
    }
}

/// The error of an unsupported (primary language subtag, number type) pair:
/// an unregistered locale fails before an unimplemented number type.
pub open spec fn resolve_error(lang: Seq<char>, number_type: NumberType) -> Error
    recommends
        !resolves(lang, number_type),
{
    if lang == "en"@ || lang == "sv"@ {
        Error::UnsupportedNumberType
    } else {
        Error::UnsupportedLocale
    }
}

/// A resolved spellout function: a strategy with the modifiers it was built
/// with, reusable across many magnitude queries.
pub struct SpelloutNumber {
    pub strategy: Strategy,
    pub case: Case,
    pub format: String,
}

impl SpelloutNumber {
    /// Spells a magnitude: the strategy assembles the un-cased phrase and the
    /// modifier pipeline folds it to the requested case, or the strategy
    /// rejects the magnitude as out of range.
    pub fn spellout(&self, num: u64) -> (r: Result<String, Error>)
        ensures
            r is Ok <==> strategy_in_range(self.strategy, num as nat),
            r matches Ok(s) ==> s@ == cased(self.case, strategy_phrase(self.strategy, num as nat)),
            r matches Err(e) ==> e is NumberOutOfRange,
    {
        let assembled = match self.strategy {
            Strategy::EnCardinal => number_en_cardinal(num, self.format.as_str()),
            Strategy::EnOrdinal => number_en_ordinal(num, self.format.as_str()),
            Strategy::SvCardinal => number_sv_cardinal(num, self.format.as_str()),
        };
        match assembled {
            Ok(s) => Ok(apply_case(self.case, s)),
            Err(e) => Err(e),
        }
    }
}

/// Resolves a locale and modifier to a reusable spellout function, or fails
/// with `UnsupportedLocale` for an unregistered locale and with
/// `UnsupportedNumberType` for a registered locale whose requested number
/// type has no strategy.
pub fn spellout_number(locale: Locale, modifier: NumberModifier) -> (r: Result<SpelloutNumber, Error>)
    ensures
        r is Ok <==> resolves(locale.lang@, modifier.number_type),
        r matches Ok(f) ==> f.strategy == resolved_strategy(locale.lang@, modifier.number_type)
            && f.case == modifier.case && f.format == modifier.format,
        r matches Err(e) ==> e == resolve_error(locale.lang@, modifier.number_type),
{
    let en: String = "en".to_owned();
    let sv: String = "sv".to_owned();
    let strategy = if locale.lang == en {
        match modifier.number_type {
            NumberType::Cardinal => Strategy::EnCardinal,
            NumberType::Ordinal => Strategy::EnOrdinal,
        }
    } else if locale.lang == sv {
        match modifier.number_type {
            NumberType::Cardinal => Strategy::SvCardinal,
            NumberType::Ordinal => return Err(Error::UnsupportedNumberType),
        }
    } else {
        return Err(Error::UnsupportedLocale);
    };
    Ok(SpelloutNumber { strategy, case: modifier.case, format: modifier.format })
}

/// Spells one magnitude in one call: resolves the locale and number type,
/// decomposes the magnitude, and folds the case. Failures are checked in
/// order: locale existence, then number-type support, then range.
pub fn spellout(locale: Locale, modifier: NumberModifier, num: u64) -> (r: Result<String, Error>)
    ensures
        r is Ok <==> resolves(locale.lang@, modifier.number_type)
            && strategy_in_range(resolved_strategy(locale.lang@, modifier.number_type), num as nat),
        r matches Ok(s) ==> s@ == cased(
            modifier.case,
            strategy_phrase(resolved_strategy(locale.lang@, modifier.number_type), num as nat),
        ),
        !resolves(locale.lang@, modifier.number_type) ==> (r matches Err(e)
            && e == resolve_error(locale.lang@, modifier.number_type)),
        resolves(locale.lang@, modifier.number_type) && !strategy_in_range(
            resolved_strategy(locale.lang@, modifier.number_type),
            num as nat,
        ) ==> (r matches Err(e) && e is NumberOutOfRange),
{
    let function = match spellout_number(locale, modifier) {
        Ok(f) => f,
        Err(e) => return Err(e),
    };
    function.spellout(num)
}

} // verus!
