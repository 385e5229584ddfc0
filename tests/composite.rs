use fake_cli::element::FakeDefinitionElement;
use fake_cli::fake_type::composite::{Array, Constant, Mapping};
use fake_cli::json::Json;

#[test]
fn test_array_fake_apply() {
    let a = Array::new(
        "array".to_string(),
        3,
        Box::new(
            FakeDefinitionElement::Constant(
                Constant::new("constant".to_string(), Json::String("Hello, world!".to_string()))
            )
        ),
    );
    let array_value = a.fake_apply();

    assert_eq!(array_value.len(), 3, "Generated array should have 3 elements");
}

#[test]
fn test_array_new() {
    let a = Array::new(
        "array".to_string(),
        3,
        Box::new(
            FakeDefinitionElement::Constant(
                Constant::new("constant".to_string(), Json::String("Hello, world!".to_string()))
            )
        ),
    );

    assert_eq!(a._fake_type, "array");
    assert_eq!(a.count, 3);
}

#[test]
fn test_constant_fake_apply() {
    let c = Constant::new("constant".to_string(), Json::String("Hello, world!".to_string()));
    let constant_value = c.fake_apply();

    assert_eq!(constant_value, Json::String("Hello, world!".to_string()));
}

#[test]
fn test_constant_new() {
    let c = Constant::new("constant".to_string(), Json::String("Hello, world!".to_string()));

    assert_eq!(c._fake_type, "constant");
    assert_eq!(c.value, Json::String("Hello, world!".to_string()));
}

#[test]
fn test_map_fake_apply() {
    let m = Mapping::new("map".to_string(), Vec::new());
    let map = m.fake_apply();

    assert!(map.is_empty(), "Generated map should be empty when no FakeDefinitionElements are provided");
}

#[test]
fn test_map_new() {
    let m = Mapping::new("map".to_string(), Vec::new());

    assert_eq!(m._fake_type, "map");
    assert_eq!(m.map.len(), 0);
}
