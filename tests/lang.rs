use fake_cli::lang::{get_language, Language};

#[test]
fn test_get_language() {
    let lang = get_language("JA_JP");
    assert!(matches!(lang, Language::JaJp), "Should return the Japanese language variant");

    let lang = get_language("EN");
    assert!(matches!(lang, Language::En), "Should return the English language variant");

    let lang = get_language("NON_EXISTENT");
    assert!(matches!(lang, Language::En), "Should default to English for non-existent languages");
}
