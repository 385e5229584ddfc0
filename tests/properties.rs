use fake_cli::definition::{output_value, FakeDefinition};
use fake_cli::element::FakeDefinitionElement;
use fake_cli::error::CompileError;
use fake_cli::fake_type::composite::{Constant, Mapping};
use fake_cli::fake_type::lorem::Word;
use fake_cli::json::{Json, Number};
use fake_cli::lang::{get_language, Language};

fn s(x: &str) -> Json {
    Json::String(x.to_string())
}

fn n(x: u64) -> Json {
    Json::Number(Number::PosInt(x))
}

fn obj(pairs: Vec<(&str, Json)>) -> Json {
    Json::Object(pairs.into_iter().map(|(k, v)| (k.to_string(), v)).collect())
}

fn constant(v: Json) -> Json {
    obj(vec![("fake_type", s("constant")), ("value", v)])
}

fn keys(v: &Json) -> Vec<String> {
    match v {
        Json::Object(entries) => entries.iter().map(|(k, _)| k.clone()).collect(),
        _ => panic!("not an object"),
    }
}

#[test]
fn constants_come_out_in_key_order() {
    let schema = obj(vec![("name", constant(s("Alice"))), ("age", constant(n(30)))]);
    let out = output_value(&schema, 1).unwrap();
    assert_eq!(out, obj(vec![("age", n(30)), ("name", s("Alice"))]));
}

#[test]
fn array_of_constants() {
    let template = constant(s("x"));
    let schema = obj(vec![(
        "tags",
        obj(vec![("fake_type", s("array")), ("count", n(3)), ("template", template)]),
    )]);
    let out = output_value(&schema, 1).unwrap();
    assert_eq!(out, obj(vec![("tags", Json::Array(vec![s("x"), s("x"), s("x")]))]));
}

#[test]
fn array_root_is_a_structural_error() {
    let schema = Json::Array(vec![obj(vec![("a", constant(n(1)))])]);
    for count in [1usize, 3] {
        let err = output_value(&schema, count).unwrap_err();
        assert!(matches!(err, CompileError::RootIsArray));
        assert!(err.is_structural());
    }
}

#[test]
fn equal_bounds_are_an_invalid_range() {
    let node = obj(vec![("fake_type", s("words")), ("lang", s("EN")), ("min", n(5)), ("max", n(5))]);
    let err = FakeDefinitionElement::generate(&node).unwrap_err();
    assert!(matches!(err, CompileError::InvalidRange(5, 5)));
}

#[test]
fn unknown_tags_are_reported_by_name() {
    for tag in ["undefined_type", "Word", "", "colour"] {
        let node = obj(vec![("fake_type", s(tag)), ("lang", s("EN"))]);
        match FakeDefinitionElement::generate(&node) {
            Err(CompileError::UnknownTag(t)) => assert_eq!(t, tag),
            other => panic!("unexpected {:?}", other),
        }
    }
}

#[test]
fn ranged_tags_compile_only_with_min_below_max() {
    for tag in ["words", "sentence", "sentences", "paragraph", "paragraphs", "password"] {
        for (min, max) in [(0u64, 1u64), (1, 5), (5, 1), (3, 3), (0, 0)] {
            let node = obj(vec![("fake_type", s(tag)), ("lang", s("EN")), ("min", n(min)), ("max", n(max))]);
            let r = FakeDefinitionElement::generate(&node);
            if min < max {
                assert!(r.is_ok());
            } else {
                assert!(matches!(r, Err(CompileError::InvalidRange(a, b)) if a as u64 == min && b as u64 == max));
            }
        }
    }
}

#[test]
fn constant_is_returned_unchanged_every_time() {
    let value = obj(vec![
        ("list", Json::Array(vec![n(1), Json::Null, Json::Bool(true)])),
        ("neg", Json::Number(Number::NegInt(-4))),
        ("real", Json::Number(Number::Float("2.5".to_string()))),
    ]);
    let node = constant(obj(vec![
        ("list", Json::Array(vec![n(1), Json::Null, Json::Bool(true)])),
        ("neg", Json::Number(Number::NegInt(-4))),
        ("real", Json::Number(Number::Float("2.5".to_string()))),
    ]));
    let g = FakeDefinitionElement::generate(&node).unwrap();
    let first = g.to_value();
    let second = g.to_value();
    assert_eq!(first, value);
    assert_eq!(second, value);
}

#[test]
fn array_length_is_the_count() {
    for count in [0u64, 1, 4, 17] {
        let node = obj(vec![
            ("fake_type", s("array")),
            ("count", n(count)),
            ("item", obj(vec![("fake_type", s("word")), ("lang", s("EN"))])),
        ]);
        let g = FakeDefinitionElement::generate(&node).unwrap();
        match g.to_value() {
            Json::Array(items) => {
                assert_eq!(items.len() as u64, count);
                assert!(items.iter().all(|i| matches!(i, Json::String(_))));
            },
            other => panic!("unexpected {:?}", other),
        }
    }
}

#[test]
fn map_keys_are_sorted_whatever_the_declaration_order() {
    let a = obj(vec![
        ("fake_type", s("map")),
        ("zeta", constant(n(1))),
        ("Alpha", constant(n(2))),
        ("beta", constant(n(3))),
    ]);
    let b = obj(vec![
        ("beta", constant(n(3))),
        ("fake_type", s("map")),
        ("Alpha", constant(n(2))),
        ("zeta", constant(n(1))),
    ]);
    let va = FakeDefinitionElement::generate(&a).unwrap().to_value();
    let vb = FakeDefinitionElement::generate(&b).unwrap().to_value();
    assert_eq!(keys(&va), vec!["Alpha", "beta", "zeta"]);
    assert_eq!(va, vb);
}

#[test]
fn definition_keys_are_sorted() {
    let schema = obj(vec![
        ("b", constant(n(1))),
        ("a", obj(vec![("fake_type", s("word")), ("lang", s("FR_FR"))])),
        ("\u{e9}t\u{e9}", constant(n(2))),
        ("Z", constant(n(3))),
    ]);
    let out = output_value(&schema, 1).unwrap();
    assert_eq!(keys(&out), vec!["Z", "a", "b", "\u{e9}t\u{e9}"]);
}

#[test]
fn ranged_unit_counts_stay_in_range() {
    for tag in ["words", "sentences", "paragraphs"] {
        let node = obj(vec![("fake_type", s(tag)), ("lang", s("JA_JP")), ("min", n(2)), ("max", n(5))]);
        let g = FakeDefinitionElement::generate(&node).unwrap();
        for _ in 0..50 {
            match g.to_value() {
                Json::Array(items) => assert!(items.len() >= 2 && items.len() < 5),
                other => panic!("unexpected {:?}", other),
            }
        }
    }
    let node = obj(vec![("fake_type", s("password")), ("lang", s("EN")), ("min", n(8)), ("max", n(12))]);
    let g = FakeDefinitionElement::generate(&node).unwrap();
    for _ in 0..50 {
        match g.to_value() {
            Json::String(p) => assert!(p.chars().count() >= 8 && p.chars().count() < 12),
            other => panic!("unexpected {:?}", other),
        }
    }
}

#[test]
fn repeat_count_shapes_the_output() {
    let schema = obj(vec![("name", constant(s("Alice")))]);
    let single = output_value(&schema, 1).unwrap();
    assert_eq!(single, obj(vec![("name", s("Alice"))]));
    let many = output_value(&schema, 3).unwrap();
    assert_eq!(many, Json::Array(vec![single_copy(), single_copy(), single_copy()]));
    let none = output_value(&schema, 0).unwrap();
    assert_eq!(none, Json::Array(vec![]));
}

fn single_copy() -> Json {
    obj(vec![("name", s("Alice"))])
}

#[test]
fn missing_or_invalid_tag() {
    let no_tag = obj(vec![("lang", s("EN"))]);
    assert!(matches!(FakeDefinitionElement::generate(&no_tag), Err(CompileError::MissingOrInvalidTag)));
    let number_tag = obj(vec![("fake_type", n(3))]);
    assert!(matches!(FakeDefinitionElement::generate(&number_tag), Err(CompileError::MissingOrInvalidTag)));
}

#[test]
fn node_that_is_not_an_object() {
    let err = FakeDefinitionElement::generate(&s("word")).unwrap_err();
    assert!(matches!(err, CompileError::StructuralError));
    assert!(err.is_structural());
    let schema = obj(vec![("a", n(1))]);
    assert!(matches!(FakeDefinition::from_json(&schema), Err(CompileError::StructuralError)));
    assert!(matches!(FakeDefinition::from_json(&n(1)), Err(CompileError::StructuralError)));
}

#[test]
fn missing_and_mistyped_fields() {
    let node = obj(vec![("fake_type", s("word"))]);
    match FakeDefinitionElement::generate(&node) {
        Err(CompileError::MissingField(t, f)) => assert_eq!((t.as_str(), f.as_str()), ("word", "lang")),
        other => panic!("unexpected {:?}", other),
    }
    let node = obj(vec![("fake_type", s("word")), ("lang", n(1))]);
    match FakeDefinitionElement::generate(&node) {
        Err(CompileError::TypeMismatch(t, f)) => assert_eq!((t.as_str(), f.as_str()), ("word", "lang")),
        other => panic!("unexpected {:?}", other),
    }
    let node = obj(vec![("fake_type", s("words")), ("lang", s("EN")), ("min", Json::Number(Number::NegInt(-1))), ("max", n(3))]);
    match FakeDefinitionElement::generate(&node) {
        Err(CompileError::TypeMismatch(t, f)) => assert_eq!((t.as_str(), f.as_str()), ("words", "min")),
        other => panic!("unexpected {:?}", other),
    }
    let node = obj(vec![("fake_type", s("words")), ("lang", s("EN")), ("min", n(1))]);
    match FakeDefinitionElement::generate(&node) {
        Err(CompileError::MissingField(t, f)) => assert_eq!((t.as_str(), f.as_str()), ("words", "max")),
        other => panic!("unexpected {:?}", other),
    }
    let node = obj(vec![("fake_type", s("array")), ("count", Json::Number(Number::Float("1.5".to_string()))), ("x", constant(n(1)))]);
    match FakeDefinitionElement::generate(&node) {
        Err(CompileError::TypeMismatch(t, f)) => assert_eq!((t.as_str(), f.as_str()), ("array", "count")),
        other => panic!("unexpected {:?}", other),
    }
    let node = obj(vec![("fake_type", s("number_with_format")), ("lang", s("EN"))]);
    match FakeDefinitionElement::generate(&node) {
        Err(CompileError::MissingField(t, f)) => assert_eq!((t.as_str(), f.as_str()), ("number_with_format", "format")),
        other => panic!("unexpected {:?}", other),
    }
    let node = obj(vec![("fake_type", s("constant"))]);
    match FakeDefinitionElement::generate(&node) {
        Err(CompileError::MissingField(t, f)) => assert_eq!((t.as_str(), f.as_str()), ("constant", "value")),
        other => panic!("unexpected {:?}", other),
    }
    let node = obj(vec![("fake_type", s("boolean")), ("lang", s("EN")), ("ratio", s("half"))]);
    match FakeDefinitionElement::generate(&node) {
        Err(CompileError::TypeMismatch(t, f)) => assert_eq!((t.as_str(), f.as_str()), ("boolean", "ratio")),
        other => panic!("unexpected {:?}", other),
    }
}

#[test]
fn composites_without_or_with_too_many_templates() {
    let node = obj(vec![("fake_type", s("array")), ("count", n(2))]);
    assert!(matches!(FakeDefinitionElement::generate(&node), Err(CompileError::EmptyComposite(t)) if t == "array"));
    let node = obj(vec![("fake_type", s("map"))]);
    assert!(matches!(FakeDefinitionElement::generate(&node), Err(CompileError::EmptyComposite(t)) if t == "map"));
    let node = obj(vec![("fake_type", s("array")), ("count", n(2)), ("a", constant(n(1))), ("b", constant(n(2)))]);
    assert!(matches!(FakeDefinitionElement::generate(&node), Err(CompileError::AmbiguousTemplate(t)) if t == "array"));
}

#[test]
fn nested_errors_abort_the_whole_tree() {
    let schema = obj(vec![
        ("ok", constant(n(1))),
        ("bad", obj(vec![("fake_type", s("map")), ("inner", obj(vec![("fake_type", s("nope"))]))])),
    ]);
    match output_value(&schema, 2) {
        Err(CompileError::UnknownTag(t)) => assert_eq!(t, "nope"),
        other => panic!("unexpected {:?}", other),
    }
}

#[test]
fn boolean_ratio_extremes_and_byte_coercion() {
    for (ratio, expected) in [(0u64, false), (100, true), (356, true), (256, false)] {
        let node = obj(vec![("fake_type", s("boolean")), ("lang", s("EN")), ("ratio", n(ratio))]);
        let g = FakeDefinitionElement::generate(&node).unwrap();
        for _ in 0..20 {
            assert_eq!(g.to_value(), Json::Bool(expected));
        }
    }
}

#[test]
fn number_format_fills_every_placeholder() {
    let node = obj(vec![("fake_type", s("number_with_format")), ("lang", s("EN")), ("format", s("##-^^x"))]);
    let g = FakeDefinitionElement::generate(&node).unwrap();
    for _ in 0..20 {
        match g.to_value() {
            Json::String(out) => {
                let c: Vec<char> = out.chars().collect();
                assert_eq!(c.len(), 6);
                assert!(c[0].is_ascii_digit() && c[1].is_ascii_digit());
                assert_eq!(c[2], '-');
                assert!(('1'..='9').contains(&c[3]) && ('1'..='9').contains(&c[4]));
                assert_eq!(c[5], 'x');
            },
            other => panic!("unexpected {:?}", other),
        }
    }
}

#[test]
fn digits_are_numbers_up_to_nine() {
    let node = obj(vec![("fake_type", s("digit")), ("lang", s("ZH_TW"))]);
    let g = FakeDefinitionElement::generate(&node).unwrap();
    for _ in 0..30 {
        match g.to_value() {
            Json::Number(Number::PosInt(d)) => assert!(d <= 9),
            other => panic!("unexpected {:?}", other),
        }
    }
}

#[test]
fn every_locale_code_resolves() {
    assert_eq!(get_language("AR_SA"), Language::ArSa);
    assert_eq!(get_language("FR_FR"), Language::FrFr);
    assert_eq!(get_language("PT_BR"), Language::PtBr);
    assert_eq!(get_language("ZH_CN"), Language::ZhCn);
    assert_eq!(get_language("ZH_TW"), Language::ZhTw);
    assert_eq!(get_language("ja_jp"), Language::En);
    assert_eq!(get_language(""), Language::En);
    let w = Word::new("word".to_string(), "NOWHERE".to_string());
    assert!(!w.fake_apply().is_empty());
}

#[test]
fn mapping_new_orders_and_replaces() {
    let m = Mapping::new(
        "map".to_string(),
        vec![
            ("b".to_string(), FakeDefinitionElement::Constant(Constant::new("constant".to_string(), n(1)))),
            ("a".to_string(), FakeDefinitionElement::Constant(Constant::new("constant".to_string(), n(2)))),
            ("b".to_string(), FakeDefinitionElement::Constant(Constant::new("constant".to_string(), n(3)))),
        ],
    );
    assert_eq!(m.to_value(), obj(vec![("a", n(2)), ("b", n(3))]));
}

#[test]
fn sentences_and_paragraphs_have_their_unit_counts() {
    let node = obj(vec![("fake_type", s("sentence")), ("lang", s("EN")), ("min", n(2)), ("max", n(6))]);
    let g = FakeDefinitionElement::generate(&node).unwrap();
    for _ in 0..50 {
        match g.to_value() {
            Json::String(text) => {
                assert!(text.ends_with('.'));
                let words = text.trim_end_matches('.').split(' ').count();
                assert!(words >= 2 && words < 6);
            },
            other => panic!("unexpected {:?}", other),
        }
    }
    let node = obj(vec![("fake_type", s("paragraph")), ("lang", s("PT_BR")), ("min", n(1)), ("max", n(4))]);
    let g = FakeDefinitionElement::generate(&node).unwrap();
    for _ in 0..50 {
        match g.to_value() {
            Json::String(text) => {
                let lines: Vec<&str> = text.split('\n').collect();
                assert!(lines.len() >= 1 && lines.len() < 4);
                for line in lines {
                    assert!(line.ends_with('.'));
                    let words = line.trim_end_matches('.').split(' ').count();
                    assert!(words >= 4 && words < 10);
                }
            },
            other => panic!("unexpected {:?}", other),
        }
    }
}

#[test]
fn drawn_words_are_never_empty() {
    let node = obj(vec![("fake_type", s("words")), ("lang", s("AR_SA")), ("min", n(1)), ("max", n(8))]);
    let g = FakeDefinitionElement::generate(&node).unwrap();
    for _ in 0..30 {
        match g.to_value() {
            Json::Array(items) => {
                for item in items {
                    assert!(matches!(item, Json::String(w) if !w.is_empty()));
                }
            },
            other => panic!("unexpected {:?}", other),
        }
    }
}
