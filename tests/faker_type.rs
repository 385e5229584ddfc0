use fake_cli::error::FakerTypeError;
use fake_cli::faker_type::{generate_dummy_data, FakerType};
use fake_cli::json::{Json, Number};

#[test]
fn names_resolve_to_generators() {
    assert_eq!(FakerType::try_from("word".to_string()), Ok(FakerType::Word));
    assert_eq!(FakerType::try_from("catch_phrase".to_string()), Ok(FakerType::CatchPhrase));
    assert_eq!(FakerType::try_from("hsla_color".to_string()), Ok(FakerType::HslaColor));
    assert_eq!(FakerType::try_from("Word".to_string()), Err(FakerTypeError::InvalidType));
    assert_eq!(FakerType::try_from("".to_string()), Err(FakerTypeError::InvalidType));
}

#[test]
fn every_table_generator_draws_its_shape() {
    let names = [
        "first_name", "last_name", "title", "suffix", "name", "name_with_title", "digit",
        "number_with_format", "boolean", "free_email_provider", "domain_suffix", "free_email",
        "safe_email", "username", "password", "ip_v4", "ip_v6", "ip", "mac_address", "user_agent",
        "rfc_status_code", "valid_status_code", "word", "words", "sentence", "sentences",
        "paragraph", "paragraphs", "hex_color", "rgb_color", "rgba_color", "hsl_color",
        "hsla_color", "color", "company_suffix", "company_name", "buzzword", "buzzword_middle",
        "buzzword_tail", "catch_phrase", "bs_verb", "bs_adj", "bs_noun", "bs", "profession",
        "industry",
    ];
    for name in names {
        let t = FakerType::try_from(name.to_string()).unwrap();
        let v = t.fake();
        match name {
            "words" | "sentences" | "paragraphs" => match v {
                Json::Array(items) => assert!(items.len() >= 3 && items.len() < 5),
                other => panic!("unexpected {:?}", other),
            },
            "digit" => assert!(matches!(v, Json::Number(Number::PosInt(d)) if d <= 9)),
            "boolean" => assert!(matches!(v, Json::Bool(_))),
            "password" => match v {
                Json::String(p) => assert!(p.chars().count() >= 8 && p.chars().count() < 20),
                other => panic!("unexpected {:?}", other),
            },
            "number_with_format" => match v {
                Json::String(p) => {
                    assert!(p.starts_with("FLAT 0"));
                    assert!(!p.contains('#') && !p.contains('^'));
                    assert_eq!(p.chars().count(), "FLAT 0# ^#/F".chars().count());
                },
                other => panic!("unexpected {:?}", other),
            },
            _ => assert!(matches!(v, Json::String(_))),
        }
    }
}

#[test]
fn dummy_data_keeps_keys_and_draws_values() {
    let input = Json::Object(vec![
        ("b".to_string(), Json::String("word".to_string())),
        ("a".to_string(), Json::String("digit".to_string())),
    ]);
    match generate_dummy_data(&input) {
        Ok(Json::Object(out)) => {
            assert_eq!(out.len(), 2);
            assert_eq!(out[0].0, "a");
            assert!(matches!(out[0].1, Json::Number(Number::PosInt(d)) if d <= 9));
            assert_eq!(out[1].0, "b");
            assert!(matches!(out[1].1, Json::String(_)));
        },
        other => panic!("unexpected {:?}", other),
    }
}

#[test]
fn dummy_data_keys_come_out_sorted_and_later_entries_win() {
    let input = Json::Object(vec![
        ("zeta".to_string(), Json::String("word".to_string())),
        ("Beta".to_string(), Json::String("boolean".to_string())),
        ("alpha".to_string(), Json::String("word".to_string())),
        ("Beta".to_string(), Json::String("digit".to_string())),
    ]);
    match generate_dummy_data(&input) {
        Ok(Json::Object(out)) => {
            let keys: Vec<&str> = out.iter().map(|(k, _)| k.as_str()).collect();
            assert_eq!(keys, vec!["Beta", "alpha", "zeta"]);
            assert!(matches!(out[0].1, Json::Number(Number::PosInt(d)) if d <= 9));
        },
        other => panic!("unexpected {:?}", other),
    }
}

#[test]
fn dummy_data_rejects_unknown_names() {
    let input = Json::Object(vec![
        ("a".to_string(), Json::String("word".to_string())),
        ("b".to_string(), Json::Number(Number::PosInt(3))),
    ]);
    assert_eq!(generate_dummy_data(&input), Err(FakerTypeError::InvalidType));
    let input = Json::Object(vec![("a".to_string(), Json::String("nothing".to_string()))]);
    assert_eq!(generate_dummy_data(&input), Err(FakerTypeError::InvalidType));
    assert_eq!(generate_dummy_data(&Json::Null), Ok(Json::Object(vec![])));
}

