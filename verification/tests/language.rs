use petit_trad::Error;
use petit_trad::language::base_lang;
use petit_trad::language::is_supported;
use petit_trad::language::normalize_lang;
use petit_trad::language::supported_languages;
use petit_trad::language::validate_pair;

#[test]
fn test_normalize_lang_simple() {
    assert_eq!(normalize_lang("EN"), "en");
    assert_eq!(normalize_lang("Fr"), "fr");
    assert_eq!(normalize_lang("de"), "de");
}

#[test]
fn test_normalize_lang_regional() {
    assert_eq!(normalize_lang("en-US"), "en-us");
    assert_eq!(normalize_lang("pt-BR"), "pt-br");
    assert_eq!(normalize_lang("zh-TW"), "zh-tw");
}

#[test]
fn test_base_lang() {
    assert_eq!(base_lang("en"), "en");
    assert_eq!(base_lang("en-us"), "en");
    assert_eq!(base_lang("pt-br"), "pt");
}

#[test]
fn test_is_supported_simple() {
    assert!(is_supported("en"));
    assert!(is_supported("fr"));
    assert!(is_supported("zh"));
    assert!(is_supported("ja"));
}

#[test]
fn test_is_supported_case_insensitive() {
    assert!(is_supported("EN"));
    assert!(is_supported("Fr"));
    assert!(is_supported("ZH"));
}

#[test]
fn test_is_supported_regional() {
    assert!(is_supported("en-US"));
    assert!(is_supported("en-GB"));
    assert!(is_supported("pt-BR"));
    assert!(is_supported("zh-TW"));
}

#[test]
fn test_is_supported_unsupported() {
    assert!(!is_supported("xx"));
    assert!(!is_supported("xyz"));
    assert!(!is_supported(""));
}

#[test]
fn test_validate_pair_valid() {
    assert!(validate_pair("en", "fr").is_ok());
    assert!(validate_pair("EN", "FR").is_ok());
    assert!(validate_pair("en-US", "de-DE").is_ok());
}

#[test]
fn test_validate_pair_invalid_source() {
    let result = validate_pair("xx", "en");
    assert!(result.is_err());
    assert!(matches!(result, Err(Error::UnsupportedLanguage(code)) if code == "xx"));
}

#[test]
fn test_validate_pair_invalid_target() {
    let result = validate_pair("en", "yy");
    assert!(result.is_err());
    assert!(matches!(result, Err(Error::UnsupportedLanguage(code)) if code == "yy"));
}

#[test]
fn test_supported_languages_count() {
    assert_eq!(supported_languages().len(), 55);
}

#[test]
fn test_supported_languages_contains_common() {
    let langs = supported_languages();
    assert!(langs.contains(&"en"));
    assert!(langs.contains(&"fr"));
    assert!(langs.contains(&"de"));
    assert!(langs.contains(&"es"));
    assert!(langs.contains(&"zh"));
    assert!(langs.contains(&"ja"));
}

#[test]
fn normalize_lowercases_beyond_ascii() {
    assert_eq!(normalize_lang("\u{c9}T\u{c9}"), "\u{e9}t\u{e9}");
    assert_eq!(normalize_lang("\u{dc}ber-DE"), "\u{fc}ber-de");
}

#[test]
fn normalize_is_idempotent_on_samples() {
    for code in ["EN", "en-US", "PT-br", "Zh-TW", "", "A-B-C", "\u{c9}T\u{c9}-Fr"] {
        let once = normalize_lang(code);
        let twice = normalize_lang(&once);
        assert_eq!(once, twice);
        assert!(once.chars().all(|c| !c.is_ascii_uppercase()));
    }
}

#[test]
fn supported_base_stays_supported_with_any_region() {
    for base in supported_languages() {
        let regional = format!("{}-XYZ", base);
        assert!(is_supported(&regional));
    }
}

#[test]
fn error_messages_name_their_cause() {
    assert_eq!(
        Error::Config("bad".to_string()).message(),
        "Configuration error: bad"
    );
    assert_eq!(
        Error::ModelLoad("gone".to_string()).message(),
        "Failed to load model: gone"
    );
    assert_eq!(
        Error::Inference("oops".to_string()).message(),
        "Inference error: oops"
    );
    assert_eq!(
        Error::UnsupportedLanguage("xx".to_string()).message(),
        "Unsupported language: xx"
    );
}
