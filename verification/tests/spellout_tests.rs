use icu_locid::Locale as IcuLocale;
use spellout::{spellout_number, Case, Locale, NumberModifier, NumberType};

#[test]
fn test_spellout_number_three() {
    let icu: IcuLocale = "en".parse().unwrap();
    let locale = Locale::new(icu.id.language.as_str());
    let modifier = NumberModifier::new(NumberType::Cardinal, Case::Lower, "".to_string());
    let spellout_number_en_cardinal = spellout_number(locale, modifier).unwrap();
    assert_eq!(spellout_number_en_cardinal.spellout(3).unwrap(), "three");
}

#[test]
fn test_spellout_number_two() {
    let icu: IcuLocale = "en".parse().unwrap();
    let locale = Locale::new(icu.id.language.as_str());
    let modifier = NumberModifier::new(NumberType::Cardinal, Case::Lower, "".to_string());
    let spellout_number_en_cardinal = spellout_number(locale, modifier).unwrap();
    assert_eq!(spellout_number_en_cardinal.spellout(2).unwrap(), "two");
}

#[test]
fn test_spellout_number_two_ordinal() {
    let icu: IcuLocale = "en".parse().unwrap();
    let locale = Locale::new(icu.id.language.as_str());
    let modifier = NumberModifier::new(NumberType::Ordinal, Case::Lower, "".to_string());
    let spellout_number_en_ordinal = spellout_number(locale, modifier).unwrap();
    assert_eq!(spellout_number_en_ordinal.spellout(2).unwrap(), "second");
}

#[test]
fn test_spellout_number_three_cardinal_swedish() {
    let icu: IcuLocale = "sv".parse().unwrap();
    let locale = Locale::new(icu.id.language.as_str());
    let modifier = NumberModifier::new(NumberType::Cardinal, Case::Lower, "".to_string());
    let spellout_number_en_cardinal = spellout_number(locale, modifier).unwrap();
    assert_eq!(spellout_number_en_cardinal.spellout(3).unwrap(), "tre");
}

#[test]
fn test_spellout_number_title_case() {
    let icu: IcuLocale = "en".parse().unwrap();
    let locale = Locale::new(icu.id.language.as_str());
    let modifier = NumberModifier::new(NumberType::Cardinal, Case::Title, "".to_string());
    let spellout_number_en_cardinal = spellout_number(locale, modifier).unwrap();
    assert_eq!(spellout_number_en_cardinal.spellout(3).unwrap(), "Three");
}

#[test]
fn test_spellout_number_18() {
    let icu: IcuLocale = "en".parse().unwrap();
    let locale = Locale::new(icu.id.language.as_str());
    let modifier = NumberModifier::new(NumberType::Cardinal, Case::Title, "".to_string());
    let spellout_number_en_cardinal = spellout_number(locale, modifier).unwrap();
    assert_eq!(spellout_number_en_cardinal.spellout(18).unwrap(), "Eighteen");
}

#[test]
fn test_spellout_number_20() {
    let icu: IcuLocale = "en".parse().unwrap();
    let locale = Locale::new(icu.id.language.as_str());
    let modifier = NumberModifier::new(NumberType::Cardinal, Case::Title, "".to_string());
    let spellout_number_en_cardinal = spellout_number(locale, modifier).unwrap();
    assert_eq!(spellout_number_en_cardinal.spellout(20).unwrap(), "Twenty");
}

#[test]
fn test_spellout_number_21() {
    let icu: IcuLocale = "en".parse().unwrap();
    let locale = Locale::new(icu.id.language.as_str());
    let modifier = NumberModifier::new(NumberType::Cardinal, Case::Title, "".to_string());
    let spellout_number_en_cardinal = spellout_number(locale, modifier).unwrap();
    assert_eq!(spellout_number_en_cardinal.spellout(21).unwrap(), "Twenty-One");
}

#[test]
fn test_spellout_number_100() {
    let icu: IcuLocale = "en".parse().unwrap();
    let locale = Locale::new(icu.id.language.as_str());
    let modifier = NumberModifier::new(NumberType::Cardinal, Case::Title, "".to_string());
    let spellout_number_en_cardinal = spellout_number(locale, modifier).unwrap();
    assert_eq!(spellout_number_en_cardinal.spellout(100).unwrap(), "One Hundred");
}

#[test]
fn test_spellout_number_143() {
    let icu: IcuLocale = "en".parse().unwrap();
    let locale = Locale::new(icu.id.language.as_str());
    let modifier = NumberModifier::new(NumberType::Cardinal, Case::Title, "".to_string());
    let spellout_number_en_cardinal = spellout_number(locale, modifier).unwrap();
    assert_eq!(
        spellout_number_en_cardinal.spellout(143).unwrap(),
        "One Hundred and Forty-Three"
    );
}

#[test]
fn test_spellout_number_4321() {
    let icu: IcuLocale = "en".parse().unwrap();
    let locale = Locale::new(icu.id.language.as_str());
    let modifier = NumberModifier::new(NumberType::Cardinal, Case::Title, "".to_string());
    let spellout_number_en_cardinal = spellout_number(locale, modifier).unwrap();
    assert_eq!(
        spellout_number_en_cardinal.spellout(4321).unwrap(),
        "Four Thousand and Three Hundred and Twenty-One"
    );
}

#[test]
fn test_spellout_number_123_987_654_321() {
    let icu: IcuLocale = "en".parse().unwrap();
    let locale = Locale::new(icu.id.language.as_str());
    let modifier = NumberModifier::new(NumberType::Cardinal, Case::Title, "".to_string());
    let spellout_number_en_cardinal = spellout_number(locale, modifier).unwrap();
    assert_eq!(
        spellout_number_en_cardinal.spellout(123_987_654_321).unwrap(),
        "One Hundred and Twenty-Three Billion and Nine Hundred and Eighty-Seven Million and Six Hundred and Fifty-Four Thousand and Three Hundred and Twenty-One"
    );
}
