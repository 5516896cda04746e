use lsproxy::api_types::SupportedLanguages;
use lsproxy::language_selection::{parse_languages, LanguageSelection};

fn explicit(raw: &str) -> Vec<SupportedLanguages> {
    match parse_languages(Some(raw.to_string())) {
        LanguageSelection::Explicit(v) => v,
        other => panic!("expected an explicit selection, got {:?}", other),
    }
}

fn invalid(raw: &str) -> Vec<String> {
    match parse_languages(Some(raw.to_string())) {
        LanguageSelection::Invalid(v) => v,
        other => panic!("expected an invalid selection, got {:?}", other),
    }
}

#[test]
fn absent_empty_or_blank_is_unspecified() {
    assert!(matches!(parse_languages(None), LanguageSelection::Unspecified));
    assert!(matches!(parse_languages(Some(String::new())), LanguageSelection::Unspecified));
    assert!(matches!(parse_languages(Some("   ".to_string())), LanguageSelection::Unspecified));
    assert!(matches!(
        parse_languages(Some("\t\n \u{3000}".to_string())),
        LanguageSelection::Unspecified
    ));
}

#[test]
fn two_languages_in_order() {
    assert_eq!(explicit("python,golang"), vec![SupportedLanguages::Python, SupportedLanguages::Golang]);
    assert_eq!(explicit("golang,python"), vec![SupportedLanguages::Golang, SupportedLanguages::Python]);
}

#[test]
fn whitespace_around_commas_is_ignored() {
    assert_eq!(
        explicit("python, golang , rust"),
        vec![SupportedLanguages::Python, SupportedLanguages::Golang, SupportedLanguages::Rust]
    );
    assert_eq!(explicit("  java\t"), vec![SupportedLanguages::Java]);
}

#[test]
fn duplicates_are_kept() {
    assert_eq!(
        explicit("php,php,ruby"),
        vec![SupportedLanguages::PHP, SupportedLanguages::PHP, SupportedLanguages::Ruby]
    );
}

#[test]
fn one_bad_token_rejects_the_whole_list() {
    assert_eq!(invalid("python,bogus,golang"), vec!["bogus".to_string()]);
}

#[test]
fn every_bad_token_is_reported() {
    assert_eq!(invalid("bogus1,bogus2"), vec!["bogus1".to_string(), "bogus2".to_string()]);
    assert_eq!(invalid(" Rust , cpp ,  X "), vec!["Rust".to_string(), "X".to_string()]);
}

#[test]
fn empty_token_between_commas_is_invalid() {
    assert_eq!(invalid("python,,golang"), vec![String::new()]);
    assert_eq!(invalid("python,"), vec![String::new()]);
}
