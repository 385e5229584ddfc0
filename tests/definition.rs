use fake_cli::definition::FakeDefinition;
use fake_cli::element::FakeDefinitionElement;
use fake_cli::fake_type::composite::Constant;
use fake_cli::json::Json;

#[test]
fn test_fake_definition_from_json() {
    let mut fake_definition_json: Vec<(String, Json)> = Vec::new();

    let mut fake_definition_element: Vec<(String, Json)> = Vec::new();
    fake_definition_element.push(("fake_type".to_string(), Json::String("word".to_string())));
    fake_definition_element.push(("lang".to_string(), Json::String("JA_JP".to_string())));

    fake_definition_json.push(("example_word".to_string(), Json::Object(fake_definition_element)));
    let fd = FakeDefinition::from_json(&Json::Object(fake_definition_json));

    assert!(fd.is_ok(), "Should return Ok for a defined fake type");
}

#[test]
fn test_fake_definition_from_json_missing_fake_type() {
    let mut fake_definition_json: Vec<(String, Json)> = Vec::new();

    let mut fake_definition_element: Vec<(String, Json)> = Vec::new();
    fake_definition_element.push(("fake_type".to_string(), Json::String("undefined_type".to_string())));
    fake_definition_element.push(("lang".to_string(), Json::String("JA_JP".to_string())));
    fake_definition_json.push(("example_word".to_string(), Json::Object(fake_definition_element)));

    let fd = FakeDefinition::from_json(&Json::Object(fake_definition_json));

    assert!(fd.is_err(), "Should return an error for an undefined fake type");
}

#[test]
fn test_fake_definition_to_value() {
    let mut fd: Vec<(String, FakeDefinitionElement)> = Vec::new();
    fd.push(("name".to_string(), FakeDefinitionElement::Constant(Constant::new("constant".to_string(), Json::String("John Doe".to_string())))));

    let fd_value = FakeDefinition(fd).to_value();

    assert!(fd_value.is_object(), "Generated value should be an object");
}
