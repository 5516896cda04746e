use lsproxy::api_types::SupportedLanguages;

#[test]
fn canonical_forms_round_trip() {
    for l in SupportedLanguages::all() {
        assert_eq!(SupportedLanguages::parse(l.as_str()).unwrap(), l);
    }
}

#[test]
fn canonical_form_texts() {
    assert_eq!(SupportedLanguages::Python.as_str(), "python");
    assert_eq!(SupportedLanguages::TypeScriptJavaScript.as_str(), "typescript_javascript");
    assert_eq!(SupportedLanguages::CPP.as_str(), "cpp");
    assert_eq!(SupportedLanguages::RubySorbet.as_str(), "ruby_sorbet");
}

#[test]
fn valid_forms_in_documented_order() {
    assert_eq!(
        SupportedLanguages::valid_forms(),
        vec![
            "python",
            "typescript_javascript",
            "rust",
            "cpp",
            "csharp",
            "java",
            "golang",
            "php",
            "ruby",
            "ruby_sorbet"
        ]
    );
    assert_eq!(SupportedLanguages::all().len(), 10);
}

#[test]
fn parse_is_case_sensitive_but_accepts_lowercase() {
    assert!(SupportedLanguages::parse("Python").is_err());
    assert_eq!(SupportedLanguages::parse("python").unwrap(), SupportedLanguages::Python);
}

#[test]
fn parse_does_not_trim_or_match_prefixes() {
    assert!(SupportedLanguages::parse(" python").is_err());
    assert!(SupportedLanguages::parse("python ").is_err());
    assert!(SupportedLanguages::parse("pyth").is_err());
    assert!(SupportedLanguages::parse("ruby_").is_err());
}

#[test]
fn unknown_language_keeps_the_token() {
    let e = SupportedLanguages::parse("cobol").unwrap_err();
    assert_eq!(e.token, "cobol");
}
