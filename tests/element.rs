use fake_cli::element::FakeDefinitionElement;
use fake_cli::error::CompileError;
use fake_cli::json::{Json, Number};

fn generate_element(fake_type: &str, lang: &str) -> Result<FakeDefinitionElement, CompileError> {
    let mut fake_definition_element: Vec<(String, Json)> = Vec::new();
    fake_definition_element.push(("fake_type".to_string(), Json::String(fake_type.to_string())));
    fake_definition_element.push(("lang".to_string(), Json::String(lang.to_string())));
    FakeDefinitionElement::generate(&Json::Object(fake_definition_element))
}

fn generate_element_with_range(fake_type: &str, lang: &str, min: usize, max: usize) -> Result<FakeDefinitionElement, CompileError> {
    let mut fake_definition_element: Vec<(String, Json)> = Vec::new();
    fake_definition_element.push(("fake_type".to_string(), Json::String(fake_type.to_string())));
    fake_definition_element.push(("lang".to_string(), Json::String(lang.to_string())));
    fake_definition_element.push(("min".to_string(), Json::Number(Number::PosInt(min as u64))));
    fake_definition_element.push(("max".to_string(), Json::Number(Number::PosInt(max as u64))));
    FakeDefinitionElement::generate(&Json::Object(fake_definition_element))
}

fn generate_element_with_ratio(fake_type: &str, lang: &str, ratio: u8) -> Result<FakeDefinitionElement, CompileError> {
    let mut fake_definition_element: Vec<(String, Json)> = Vec::new();
    fake_definition_element.push(("fake_type".to_string(), Json::String(fake_type.to_string())));
    fake_definition_element.push(("lang".to_string(), Json::String(lang.to_string())));
    fake_definition_element.push(("ratio".to_string(), Json::Number(Number::PosInt(ratio as u64))));
    FakeDefinitionElement::generate(&Json::Object(fake_definition_element))
}

fn generate_element_with_format(fake_type: &str, lang: &str, format: &str) -> Result<FakeDefinitionElement, CompileError> {
    let mut fake_definition_element: Vec<(String, Json)> = Vec::new();
    fake_definition_element.push(("fake_type".to_string(), Json::String(fake_type.to_string())));
    fake_definition_element.push(("lang".to_string(), Json::String(lang.to_string())));
    fake_definition_element.push(("format".to_string(), Json::String(format.to_string())));
    FakeDefinitionElement::generate(&Json::Object(fake_definition_element))
}

fn generate_element_for_constant(fake_type: &str, value: &str) -> Result<FakeDefinitionElement, CompileError> {
    let mut fake_definition_element: Vec<(String, Json)> = Vec::new();
    fake_definition_element.push(("fake_type".to_string(), Json::String(fake_type.to_string())));
    fake_definition_element.push(("value".to_string(), Json::String(value.to_string())));
    FakeDefinitionElement::generate(&Json::Object(fake_definition_element))
}

#[test]
fn test_fake_definition_element_generate_for_word() {
    let fd = generate_element("word", "EN");
    assert!(fd.is_ok(), "Should return Ok for a defined fake type");
}

#[test]
fn test_fake_definition_element_generate_for_words() {
    let fd = generate_element_with_range("words", "EN", 1, 5);
    assert!(fd.is_ok(), "Should return Ok for a defined fake type");
}

#[test]
fn test_fake_definition_element_generate_for_sentence() {
    let fd = generate_element_with_range("sentence", "EN", 1, 3);
    assert!(fd.is_ok(), "Should return Ok for a defined fake type");
}

#[test]
fn test_fake_definition_element_generate_for_sentences() {
    let fd = generate_element_with_range("sentences", "EN", 1, 3);
    assert!(fd.is_ok(), "Should return Ok for a defined fake type");
}

#[test]
fn test_fake_definition_element_generate_for_paragraph() {
    let fd = generate_element_with_range("paragraph", "EN", 1, 3);
    assert!(fd.is_ok(), "Should return Ok for a defined fake type");
}

#[test]
fn test_fake_definition_element_generate_for_paragraphs() {
    let fd = generate_element_with_range("paragraphs", "EN", 1, 3);
    assert!(fd.is_ok(), "Should return Ok for a defined fake type");
}

#[test]
fn test_fake_definition_element_generate_for_first_name() {
    let fd = generate_element("first_name", "EN");
    assert!(fd.is_ok(), "Should return Ok for a defined fake type");
}

#[test]
fn test_fake_definition_element_generate_for_last_name() {
    let fd = generate_element("last_name", "EN");
    assert!(fd.is_ok(), "Should return Ok for a defined fake type");
}

#[test]
fn test_fake_definition_element_generate_for_title() {
    let fd = generate_element("title", "EN");
    assert!(fd.is_ok(), "Should return Ok for a defined fake type");
}

#[test]
fn test_fake_definition_element_generate_for_suffix() {
    let fd = generate_element("suffix", "EN");
    assert!(fd.is_ok(), "Should return Ok for a defined fake type");
}

#[test]
fn test_fake_definition_element_generate_for_name() {
    let fd = generate_element("name", "EN");
    assert!(fd.is_ok(), "Should return Ok for a defined fake type");
}

#[test]
fn test_fake_definition_element_generate_for_name_with_title() {
    let fd = generate_element("name_with_title", "EN");
    assert!(fd.is_ok(), "Should return Ok for a defined fake type");
}

#[test]
fn test_fake_definition_element_generate_for_digit() {
    let fd = generate_element("digit", "EN");
    assert!(fd.is_ok(), "Should return Ok for a defined fake type");
}

#[test]
fn test_fake_definition_element_generate_for_number_with_format() {
    let fd = generate_element_with_format("number_with_format", "EN", "TEST ^#####");
    assert!(fd.is_ok(), "Should return Ok for a defined fake type");
}

#[test]
fn test_fake_definition_element_generate_for_boolean() {
    let fd = generate_element_with_ratio("boolean", "EN", 50);
    assert!(fd.is_ok(), "Should return Ok for a defined fake type");
}

#[test]
fn test_fake_definition_element_generate_for_free_email_provider() {
    let fd = generate_element("free_email_provider", "EN");
    assert!(fd.is_ok(), "Should return Ok for a defined fake type");
}

#[test]
fn test_fake_definition_element_generate_for_domain_suffix() {
    let fd = generate_element("domain_suffix", "EN");
    assert!(fd.is_ok(), "Should return Ok for a defined fake type");
}

#[test]
fn test_fake_definition_element_generate_for_free_email() {
    let fd = generate_element("free_email", "EN");
    assert!(fd.is_ok(), "Should return Ok for a defined fake type");
}

#[test]
fn test_fake_definition_element_generate_for_safe_email() {
    let fd = generate_element("safe_email", "EN");
    assert!(fd.is_ok(), "Should return Ok for a defined fake type");
}

#[test]
fn test_fake_definition_element_generate_for_username() {
    let fd = generate_element("username", "EN");
    assert!(fd.is_ok(), "Should return Ok for a defined fake type");
}

#[test]
fn test_fake_definition_element_generate_for_password() {
    let fd = generate_element_with_range("username", "EN", 1, 5);
    assert!(fd.is_ok(), "Should return Ok for a defined fake type");
}

#[test]
fn test_fake_definition_element_generate_for_ip_v4() {
    let fd = generate_element("ip_v4", "EN");
    assert!(fd.is_ok(), "Should return Ok for a defined fake type");
}

#[test]
fn test_fake_definition_element_generate_for_ip_v6() {
    let fd = generate_element("ip_v6", "EN");
    assert!(fd.is_ok(), "Should return Ok for a defined fake type");
}

#[test]
fn test_fake_definition_element_generate_for_ip() {
    let fd = generate_element("ip", "EN");
    assert!(fd.is_ok(), "Should return Ok for a defined fake type");
}

#[test]
fn test_fake_definition_element_generate_for_mac_address() {
    let fd = generate_element("mac_address", "EN");
    assert!(fd.is_ok(), "Should return Ok for a defined fake type");
}

#[test]
fn test_fake_definition_element_generate_for_user_agent() {
    let fd = generate_element("user_agent", "EN");
    assert!(fd.is_ok(), "Should return Ok for a defined fake type");
}

#[test]
fn test_fake_definition_element_generate_for_constant() {
    let fd = generate_element_for_constant("constant", "aaaaa");
    assert!(fd.is_ok(), "Should return Ok for a defined fake type");
}

#[test]
fn test_fake_definition_element_generate_for_array() {
    let mut fake_definition_element: Vec<(String, Json)> = Vec::new();
    fake_definition_element.push(("fake_type".to_string(), Json::String("array".to_string())));
    fake_definition_element.push(("count".to_string(), Json::Number(Number::PosInt(1))));

    let mut child_fake_definition_element: Vec<(String, Json)> = Vec::new();
    child_fake_definition_element.push(("fake_type".to_string(), Json::String("word".to_string())));
    child_fake_definition_element.push(("lang".to_string(), Json::String("JA_JP".to_string())));

    fake_definition_element.push(("example_word".to_string(), Json::Object(child_fake_definition_element)));

    let fd = FakeDefinitionElement::generate(&Json::Object(fake_definition_element));
    assert!(fd.is_ok(), "Should return Ok for a defined fake type");
}

#[test]
fn test_fake_definition_element_generate_for_map() {
    let mut fake_definition_element: Vec<(String, Json)> = Vec::new();
    fake_definition_element.push(("fake_type".to_string(), Json::String("map".to_string())));

    let mut child_fake_definition_element: Vec<(String, Json)> = Vec::new();
    child_fake_definition_element.push(("fake_type".to_string(), Json::String("word".to_string())));
    child_fake_definition_element.push(("lang".to_string(), Json::String("JA_JP".to_string())));

    fake_definition_element.push(("example_word".to_string(), Json::Object(child_fake_definition_element)));

    let fd = FakeDefinitionElement::generate(&Json::Object(fake_definition_element));
    assert!(fd.is_ok(), "Should return Ok for a defined fake type");
}

#[test]
fn test_fake_definition_element_generate_missing_fake_type() {
    let fd = generate_element("undefined_type", "EN");
    assert!(fd.is_err(), "Should return an error for an undefined fake type");
}
