use fake_cli::fake_type::boolean::Boolean;
use fake_cli::fake_type::internet::{
    DomainSuffix, FreeEmail, FreeEmailProvider, IPv4, IPv6, MACAddress, Password, SafeEmail,
    UserAgent, Username, IP,
};
use fake_cli::fake_type::lorem::{Paragraph, Paragraphs, Sentence, Sentences, Word, Words};
use fake_cli::fake_type::name::{FirstName, LastName, Name, NameWithTitle, Suffix, Title};
use fake_cli::fake_type::number::{Digit, NumberWithFormat};
use fake_cli::fake_type::{FakeElement, FakeWithFormatElement, FakeWithRangeElement, FakeWithRatioElement};

#[test]
fn test_boolean_fake_apply() {
    let b = Boolean::new("boolean".to_string(), "English".to_string(), 30);
    let boolean_value = b.fake_apply();

    assert!(boolean_value == true || boolean_value == false, "Generated value should be a boolean");
}

#[test]
fn test_boolean_new() {
    let b = Boolean::new("boolean".to_string(), "English".to_string(), 30);

    assert_eq!(b._fake_type, "boolean");
    assert_eq!(b.lang, "English");
    assert_eq!(b.ratio, 30);
}

#[test]
fn test_domain_suffix_fake_apply() {
    let w = DomainSuffix::new("domain_suffix".to_string(), "English".to_string());
    let domain_suffix = w.fake_apply();
    assert!(!domain_suffix.is_empty(), "Generated domain_suffix should not be empty");
}

#[test]
fn test_domain_suffix_new() {
    let w = DomainSuffix::new("domain_suffix".to_string(), "English".to_string());
    assert_eq!(w._fake_type, "domain_suffix");
    assert_eq!(w.lang, "English");
}

#[test]
fn test_free_email_fake_apply() {
    let w = FreeEmail::new("free_email".to_string(), "English".to_string());
    let free_email = w.fake_apply();
    assert!(!free_email.is_empty(), "Generated free_email should not be empty");
}

#[test]
fn test_free_email_new() {
    let w = FreeEmail::new("free_email".to_string(), "English".to_string());
    assert_eq!(w._fake_type, "free_email");
    assert_eq!(w.lang, "English");
}

#[test]
fn test_free_email_provider_fake_apply() {
    let w = FreeEmailProvider::new("free_email_provider".to_string(), "English".to_string());
    let free_email_provider = w.fake_apply();
    assert!(!free_email_provider.is_empty(), "Generated free_email_provider should not be empty");
}

#[test]
fn test_free_email_provider_new() {
    let w = FreeEmailProvider::new("free_email_provider".to_string(), "English".to_string());
    assert_eq!(w._fake_type, "free_email_provider");
    assert_eq!(w.lang, "English");
}

#[test]
fn test_ip_v4_fake_apply() {
    let w = IPv4::new("ip_v4".to_string(), "English".to_string());
    let ip_v4 = w.fake_apply();
    assert!(!ip_v4.is_empty(), "Generated ip_v4 should not be empty");
}

#[test]
fn test_ip_v4_new() {
    let w = IPv4::new("ip_v4".to_string(), "English".to_string());
    assert_eq!(w._fake_type, "ip_v4");
    assert_eq!(w.lang, "English");
}

#[test]
fn test_safe_email_fake_apply() {
    let w = SafeEmail::new("safe_email".to_string(), "English".to_string());
    let safe_email = w.fake_apply();
    assert!(!safe_email.is_empty(), "Generated safe_email should not be empty");
}

#[test]
fn test_safe_email_new() {
    let w = SafeEmail::new("safe_email".to_string(), "English".to_string());
    assert_eq!(w._fake_type, "safe_email");
    assert_eq!(w.lang, "English");
}

#[test]
fn test_user_agent_fake_apply() {
    let w = UserAgent::new("user_agent".to_string(), "English".to_string());
    let user_agent = w.fake_apply();
    assert!(!user_agent.is_empty(), "Generated user_agent should not be empty");
}

#[test]
fn test_user_agent_new() {
    let w = UserAgent::new("user_agent".to_string(), "English".to_string());
    assert_eq!(w._fake_type, "user_agent");
    assert_eq!(w.lang, "English");
}

#[test]
fn test_username_fake_apply() {
    let w = Username::new("username".to_string(), "English".to_string());
    let username = w.fake_apply();
    assert!(!username.is_empty(), "Generated username should not be empty");
}

#[test]
fn test_username_new() {
    let w = Username::new("username".to_string(), "English".to_string());
    assert_eq!(w._fake_type, "username");
    assert_eq!(w.lang, "English");
}

#[test]
fn test_ip_fake_apply() {
    let w = IP::new("ip".to_string(), "English".to_string());
    let ip = w.fake_apply();
    assert!(!ip.is_empty(), "Generated ip should not be empty");
}

#[test]
fn test_ip_new() {
    let w = IP::new("ip".to_string(), "English".to_string());
    assert_eq!(w._fake_type, "ip");
    assert_eq!(w.lang, "English");
}

#[test]
fn test_ip_v6_fake_apply() {
    let w = IPv6::new("ip_v6".to_string(), "English".to_string());
    let ip_v6 = w.fake_apply();
    assert!(!ip_v6.is_empty(), "Generated ip_v6 should not be empty");
}

#[test]
fn test_ip_v6_new() {
    let w = IPv6::new("ip_v6".to_string(), "English".to_string());
    assert_eq!(w._fake_type, "ip_v6");
    assert_eq!(w.lang, "English");
}

#[test]
fn last_name_test_last_name_fake_apply() {
    let ln = LastName::new("lastname".to_string(), "English".to_string());
    let last_name = ln.fake_apply();

    assert!(!last_name.is_empty(), "Generated last name should not be empty");
}

#[test]
fn test_last_name_new() {
    let ln = LastName::new("lastname".to_string(), "English".to_string());

    assert_eq!(ln._fake_type, "lastname");
    assert_eq!(ln.lang, "English");
}

#[test]
fn test_paragraphs_fake_apply() {
    let s = Paragraphs::new("paragraphs".to_string(), "English".to_string(), 1, 7).unwrap();
    let paragraphs = s.fake_apply();

    assert!(paragraphs.len() >= 1 && paragraphs.len() <= 7, "The number of paragraph in the generated paragraphs should be within the range");
}

#[test]
fn test_paragraphs_new() {
    let s = Paragraphs::new("paragraphs".to_string(), "English".to_string(), 1, 7);

    assert!(s.is_ok());
}

#[test]
fn test_paragraphs_new_fail() {
    let s = Paragraphs::new("paragraphs".to_string(), "English".to_string(), 7, 1);

    assert!(s.is_err());
}

#[test]
fn test_sentence_fake_apply() {
    let s = Sentence::new("sentence".to_string(), "English".to_string(), 1, 7).unwrap();
    let sentence = s.fake_apply();

    assert!(sentence.split_whitespace().count() >= 1 && sentence.split_whitespace().count() <= 7, "The number of words in the generated sentence should be within the range");
    assert!(!sentence.is_empty(), "Generated sentence should not be empty");
}

#[test]
fn test_sentence_new() {
    let s = Sentence::new("sentence".to_string(), "English".to_string(), 1, 7);

    assert!(s.is_ok());
}

#[test]
fn test_sentence_new_fail() {
    let s = Sentence::new("sentence".to_string(), "English".to_string(), 7, 1);

    assert!(s.is_err());
}

#[test]
fn test_fake_apply() {
    let sentences = Sentences::new("sentences".to_string(), "English".to_string(), 1, 7).unwrap();
    let fake_sentences = sentences.fake_apply();

    assert!(fake_sentences.len() >= 1 && fake_sentences.len() <= 7, "The number of sentence in the generated sentence should be within the range");
}

#[test]
fn test_new() {
    let sentences = Sentences::new("sentences".to_string(), "English".to_string(), 1, 7);
    assert!(sentences.is_ok(), "Should return Ok for a defined fake type");
}

#[test]
fn test_new_error() {
    let sentences = Sentences::new("sentences".to_string(), "English".to_string(), 10, 1);
    assert!(sentences.is_err(), "Should return Ok for a defined fake type");
}

#[test]
fn test_word_fake_apply() {
    let w = Word::new("word".to_string(), "English".to_string());
    let word = w.fake_apply();
    assert!(!word.is_empty(), "Generated word should not be empty");
}

#[test]
fn test_word_new() {
    let w = Word::new("word".to_string(), "English".to_string());
    assert_eq!(w._fake_type, "word");
    assert_eq!(w.lang, "English");
}

#[test]
fn test_mac_address_fake_apply() {
    let w = MACAddress::new("mac_address".to_string(), "English".to_string());
    let mac_address = w.fake_apply();
    assert!(!mac_address.is_empty(), "Generated mac_address should not be empty");
}

#[test]
fn test_mac_address_new() {
    let w = MACAddress::new("mac_address".to_string(), "English".to_string());
    assert_eq!(w._fake_type, "mac_address");
    assert_eq!(w.lang, "English");
}

#[test]
fn first_name_test_last_name_fake_apply() {
    let n = FirstName::new("firstname".to_string(), "EN".to_string());
    let first_name = n.fake_apply();

    assert!(!first_name.is_empty(), "Generated last name should not be empty");
}

#[test]
fn test_first_name_new() {
    let n = FirstName::new("firstname".to_string(), "English".to_string());

    assert_eq!(n._fake_type, "firstname");
    assert_eq!(n.lang, "English");
}

#[test]
fn test_name_fake_apply() {
    let w = Name::new("name".to_string(), "English".to_string());
    let name = w.fake_apply();
    assert!(!name.is_empty(), "Generated name should not be empty");
}

#[test]
fn test_name_new() {
    let w = Name::new("name".to_string(), "English".to_string());
    assert_eq!(w._fake_type, "name");
    assert_eq!(w.lang, "English");
}

#[test]
fn test_suffix_fake_apply() {
    let w = Suffix::new("suffix".to_string(), "English".to_string());
    let suffix = w.fake_apply();
    assert!(!suffix.is_empty(), "Generated suffix should not be empty");
}

#[test]
fn test_suffix_new() {
    let w = Suffix::new("suffix".to_string(), "English".to_string());
    assert_eq!(w._fake_type, "suffix");
    assert_eq!(w.lang, "English");
}

#[test]
fn test_name_with_title_fake_apply() {
    let w = NameWithTitle::new("name_with_title".to_string(), "English".to_string());
    let name_with_title = w.fake_apply();
    assert!(!name_with_title.is_empty(), "Generated name_with_title should not be empty");
}

#[test]
fn test_name_with_title_new() {
    let w = NameWithTitle::new("name_with_title".to_string(), "English".to_string());
    assert_eq!(w._fake_type, "name_with_title");
    assert_eq!(w.lang, "English");
}

#[test]
fn test_digit_fake_apply() {
    let d = Digit::new("digit".to_string(), "English".to_string());
    let digit = d.fake_apply();

    // Since u8 is always >= 0 no need to check "digit >= 0"
    assert!(digit <= 9, "Generated digit should be less than or equal to 9");
}

#[test]
fn test_digit_new() {
    let d = Digit::new("digit".to_string(), "English".to_string());

    assert_eq!(d._fake_type, "digit");
    assert_eq!(d.lang, "English");
}

#[test]
fn test_number_with_format_fake_apply() {
    let n = NumberWithFormat::new("number_with_format".to_string(), "English".to_string(), "###-###".to_string());
    let number = n.fake_apply();

    assert!(!number.is_empty(), "Generated number with format should not be empty");
}

#[test]
fn test_number_with_format_new() {
    let n = NumberWithFormat::new("number_with_format".to_string(), "English".to_string(), "###-###".to_string());
    assert_eq!(n._fake_type, "number_with_format");
    assert_eq!(n.lang, "English");
    assert_eq!(n.format, "###-###");
}

#[test]
fn test_paragraph_fake_apply() {
    let paragraph = Paragraph::new("paragraph".to_string(), "English".to_string(), 1, 7).unwrap();
    let fake_paragraph = paragraph.fake_apply();

    let sentences: Vec<_> = fake_paragraph.split("\n").collect();
    assert!(sentences.len() >= 1 && sentences.len() <= 7, "The number of paragraph in the generated paragraphs should be within the range");
}

#[test]
fn test_paragraph_new() {
    let s = Paragraph::new("paragraph".to_string(), "English".to_string(), 1, 7);

    assert!(s.is_ok());
}

#[test]
fn test_paragraph_new_fail() {
    let s = Paragraph::new("paragraph".to_string(), "English".to_string(), 7, 1);

    assert!(s.is_err());
}

#[test]
fn test_password_fake_apply() {
    let s = Password::new("password".to_string(), "English".to_string(), 1, 7).unwrap();
    let password = s.fake_apply();

    assert!(password.split_whitespace().count() >= 1 && password.split_whitespace().count() <= 7, "The number of words in the generated password should be within the range");
    assert!(!password.is_empty(), "Generated password should not be empty");
}

#[test]
fn test_password_new() {
    let s = Password::new("password".to_string(), "English".to_string(), 1, 7);

    assert!(s.is_ok());
}

#[test]
fn test_password_new_fail() {
    let s = Password::new("password".to_string(), "English".to_string(), 7, 1);

    assert!(s.is_err());
}

#[test]
fn test_title_fake_apply() {
    let w = Title::new("title".to_string(), "English".to_string());
    let title = w.fake_apply();
    assert!(!title.is_empty(), "Generated title should not be empty");
}

#[test]
fn test_title_new() {
    let w = Title::new("title".to_string(), "English".to_string());
    assert_eq!(w._fake_type, "title");
    assert_eq!(w.lang, "English");
}

#[test]
fn test_words_fake_apply() {
    let w = Words::new("words".to_string(), "English".to_string(), 1, 5).unwrap();
    let words = w.fake_apply();

    assert!(words.len() >= 1 && words.len() <= 5, "The number of generated words should be within the range");
    assert!(!words.iter().any(|word| word.is_empty()), "No generated word should be empty");
}

#[test]
fn test_words_new() {
    let w = Words::new("words".to_string(), "English".to_string(), 1, 5);

    assert!(w.is_ok());
}

#[test]
fn test_words_new_fail() {
    let w = Words::new("words".to_string(), "English".to_string(), 5, 1);

    assert!(w.is_err());
}
