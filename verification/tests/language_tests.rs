use translate_core::language::language_from_subtag;
use translate_core::{Language, LanguageError};

#[test]
fn parse_accepts_every_code() {
    let all = [
        (Language::Detect, "auto"),
        (Language::English, "en"),
        (Language::Arabic, "ar"),
        (Language::Chinese, "zh"),
        (Language::French, "fr"),
        (Language::German, "de"),
        (Language::Italian, "it"),
        (Language::Japanese, "ja"),
        (Language::Portuguese, "pt"),
        (Language::Russian, "ru"),
        (Language::Spanish, "es"),
        (Language::Polish, "pl"),
        (Language::Indonesian, "id"),
    ];
    for (lang, code) in all {
        assert_eq!(lang.as_code(), code);
        assert_eq!(Language::from(code), Ok(lang));
    }
}

#[test]
fn parse_round_trips_through_code_and_name() {
    let real = [
        Language::English,
        Language::Arabic,
        Language::Chinese,
        Language::French,
        Language::German,
        Language::Italian,
        Language::Japanese,
        Language::Portuguese,
        Language::Russian,
        Language::Spanish,
        Language::Polish,
        Language::Indonesian,
    ];
    for lang in real {
        assert_eq!(Language::from(lang.as_code()), Ok(lang));
        assert_eq!(Language::from(lang.as_pretty()), Ok(lang));
    }
}

#[test]
fn parse_ignores_case() {
    assert_eq!(Language::from("EN"), Ok(Language::English));
    assert_eq!(Language::from("French"), Ok(Language::French));
    assert_eq!(Language::from("fReNcH"), Ok(Language::French));
    assert_eq!(Language::from("GERMAN"), Ok(Language::German));
    assert_eq!(Language::from("AUTO"), Ok(Language::Detect));
    assert_eq!(Language::from("Es"), Ok(Language::Spanish));
    assert_eq!(Language::from("Polish"), Ok(Language::Polish));
    assert_eq!("Japanese".parse::<Language>(), Ok(Language::Japanese));
}

#[test]
fn parse_rejects_unknown_input() {
    match Language::from("not-a-language") {
        Err(LanguageError::FormatError(m)) => assert_eq!(m, "not-a-language"),
        other => panic!("expected a format error, got {:?}", other),
    }
    assert!(Language::from("").is_err());
    assert!(Language::from("Detected").is_err());
}

#[test]
fn format_error_message_names_the_input() {
    let e = Language::from("klingon").unwrap_err();
    assert_eq!(e.message(), "Unknown Language: klingon");
}

#[test]
fn pretty_names_match_the_tables() {
    assert_eq!(Language::Detect.as_pretty(), "Detected");
    assert_eq!(Language::German.as_pretty(), "German");
    assert_eq!(Language::Polish.as_pretty(), "Polish");
}

#[test]
fn default_language_is_english() {
    assert_eq!(Language::default(), Language::English);
}

#[test]
fn subtag_lookup_matches_codes_only() {
    assert_eq!(language_from_subtag("en"), Ok(Language::English));
    assert_eq!(language_from_subtag("id"), Ok(Language::Indonesian));
    assert!(language_from_subtag("auto").is_err());
    assert!(language_from_subtag("und").is_err());
    assert!(language_from_subtag("english").is_err());
}

#[test]
fn language_identifier_is_read_by_its_subtag() {
    let de: unic_langid::LanguageIdentifier = "de-AT".parse().unwrap();
    assert_eq!(Language::from_unic_langid(de), Ok(Language::German));
    let upper: unic_langid::LanguageIdentifier = "EN".parse().unwrap();
    assert_eq!(Language::from_unic_langid(upper), Ok(Language::English));
    let unknown: unic_langid::LanguageIdentifier = "xx".parse().unwrap();
    match Language::from_unic_langid(unknown) {
        Err(LanguageError::FormatError(m)) => assert_eq!(m, "Unknown Language"),
        other => panic!("expected a format error, got {:?}", other),
    }
}
