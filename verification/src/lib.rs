//! A locale-aware number-to-words spellout engine.
//!
//! Given a non-negative magnitude, a locale (identified by its primary
//! language subtag), and formatting modifiers (cardinal vs. ordinal,
//! letter case), the engine produces the written-word phrase for the
//! number in the target language, or a typed error.

pub mod casing;
pub mod dispatch;
pub mod engine;
pub mod laws;
pub mod words;

pub use casing::{apply_case, Case};
pub use dispatch::{
    spellout, spellout_number, Locale, NumberModifier, NumberType, SpelloutNumber, Strategy,
};
pub use engine::{
    beyond_tens, number_en_cardinal, number_en_cardinal_helper, number_en_ordinal,
    number_sv_cardinal, Error,
};
pub use words::{english_ten, english_unit};
