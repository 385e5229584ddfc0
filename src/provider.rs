use vstd::prelude::*;
use fake::Fake;
use fake::faker::boolean::raw as boolean;
use fake::faker::color::raw as color;
use fake::faker::company::raw as company;
use fake::faker::http::raw as http;
use fake::faker::internet::raw as internet;
use fake::faker::lorem::raw as lorem;
use fake::faker::name::raw as names;
use fake::faker::number::raw as number;
use fake::locales::{AR_SA, EN, FR_FR, JA_JP, PT_BR, ZH_CN, ZH_TW};
use crate::lang::Language;

verus! {

/// What a number format becomes: each `#` a digit, each `^` a digit other
/// than zero, every other character kept.
pub open spec fn numerified(format: Seq<char>, out: Seq<char>) -> bool {
    &&& out.len() == format.len()
    &&& forall|i: int|
        0 <= i < format.len() ==> {
            let f = #[trigger] format[i];
            let c = out[i];
            if f == '#' {
                '0' <= c <= '9'
            } else if f == '^' {
                '1' <= c <= '9'
            } else {
                c == f
            }
        }
}

/// Parts joined by a separator.
pub open spec fn join_with(parts: Seq<Seq<char>>, sep: Seq<char>) -> Seq<char>
    decreases parts.len(),
{
    if parts.len() == 0 {
        Seq::empty()
    } else if parts.len() == 1 {
        parts[0]
    } else {
        join_with(parts.drop_last(), sep) + sep + parts.last()
    }
}

/// A sentence: words joined by spaces, then a full stop.
pub open spec fn sentence_text(words: Seq<Seq<char>>) -> Seq<char> {
    join_with(words, seq![' ']).push('.')
}

/// `s` is a sentence of between `min` and `max - 1` non-empty words.
pub open spec fn is_sentence(s: Seq<char>, min: int, max: int) -> bool {
    exists|words: Seq<Seq<char>>|
        min <= words.len() < max && (forall|j: int| 0 <= j < words.len() ==> #[trigger] words[j].len() > 0)
            && s == #[trigger] sentence_text(words)
}

/// `s` is a paragraph of between `min` and `max - 1` lines, each a sentence of
/// 4 to 9 words.
pub open spec fn is_paragraph(s: Seq<char>, min: int, max: int) -> bool {
    exists|lines: Seq<Seq<char>>|
        min <= lines.len() < max && (forall|j: int| 0 <= j < lines.len() ==> is_sentence(#[trigger] lines[j], 4, 10))
            && s == #[trigger] join_with(lines, seq!['\n'])
}

/// Relies on fake's `faker::lorem::raw::Word`: one word of the locale's lorem word list (every word of the list, which all locales share, is non-empty), drawn at random.
#[verifier::external_body]
pub(crate) fn draw_word(lang: Language) -> (r: String)
    ensures
        r@.len() > 0,
{
    match lang {
        Language::JaJp => lorem::Word(JA_JP).fake(),
        Language::En => lorem::Word(EN).fake(),
        Language::ArSa => lorem::Word(AR_SA).fake(),
        Language::FrFr => lorem::Word(FR_FR).fake(),
        Language::PtBr => lorem::Word(PT_BR).fake(),
        Language::ZhCn => lorem::Word(ZH_CN).fake(),
        Language::ZhTw => lorem::Word(ZH_TW).fake(),
    }
}

/// Relies on fake's `faker::name::raw::FirstName`: a first name of the locale, drawn at random.
#[verifier::external_body]
pub(crate) fn draw_first_name(lang: Language) -> String
{
    match lang {
        Language::JaJp => names::FirstName(JA_JP).fake(),
        Language::En => names::FirstName(EN).fake(),
        Language::ArSa => names::FirstName(AR_SA).fake(),
        Language::FrFr => names::FirstName(FR_FR).fake(),
        Language::PtBr => names::FirstName(PT_BR).fake(),
        Language::ZhCn => names::FirstName(ZH_CN).fake(),
        Language::ZhTw => names::FirstName(ZH_TW).fake(),
    }
}

/// Relies on fake's `faker::name::raw::LastName`: a last name of the locale, drawn at random.
#[verifier::external_body]
pub(crate) fn draw_last_name(lang: Language) -> String
{
    match lang {
        Language::JaJp => names::LastName(JA_JP).fake(),
        Language::En => names::LastName(EN).fake(),
        Language::ArSa => names::LastName(AR_SA).fake(),
        Language::FrFr => names::LastName(FR_FR).fake(),
        Language::PtBr => names::LastName(PT_BR).fake(),
        Language::ZhCn => names::LastName(ZH_CN).fake(),
        Language::ZhTw => names::LastName(ZH_TW).fake(),
    }
}

/// Relies on fake's `faker::name::raw::Title`: a name title of the locale, drawn at random.
#[verifier::external_body]
pub(crate) fn draw_title(lang: Language) -> String
{
    match lang {
        Language::JaJp => names::Title(JA_JP).fake(),
        Language::En => names::Title(EN).fake(),
        Language::ArSa => names::Title(AR_SA).fake(),
        Language::FrFr => names::Title(FR_FR).fake(),
        Language::PtBr => names::Title(PT_BR).fake(),
        Language::ZhCn => names::Title(ZH_CN).fake(),
        Language::ZhTw => names::Title(ZH_TW).fake(),
    }
}

/// Relies on fake's `faker::name::raw::Suffix`: a name suffix of the locale, drawn at random.
#[verifier::external_body]
pub(crate) fn draw_suffix(lang: Language) -> String
{
    match lang {
        Language::JaJp => names::Suffix(JA_JP).fake(),
        Language::En => names::Suffix(EN).fake(),
        Language::ArSa => names::Suffix(AR_SA).fake(),
        Language::FrFr => names::Suffix(FR_FR).fake(),
        Language::PtBr => names::Suffix(PT_BR).fake(),
        Language::ZhCn => names::Suffix(ZH_CN).fake(),
        Language::ZhTw => names::Suffix(ZH_TW).fake(),
    }
}

/// Relies on fake's `faker::name::raw::Name`: a full name of the locale, drawn at random.
#[verifier::external_body]
pub(crate) fn draw_name(lang: Language) -> String
{
    match lang {
        Language::JaJp => names::Name(JA_JP).fake(),
        Language::En => names::Name(EN).fake(),
        Language::ArSa => names::Name(AR_SA).fake(),
        Language::FrFr => names::Name(FR_FR).fake(),
        Language::PtBr => names::Name(PT_BR).fake(),
        Language::ZhCn => names::Name(ZH_CN).fake(),
        Language::ZhTw => names::Name(ZH_TW).fake(),
    }
}

/// Relies on fake's `faker::name::raw::NameWithTitle`: a full name with a title, drawn at random.
#[verifier::external_body]
pub(crate) fn draw_name_with_title(lang: Language) -> String
{
    match lang {
        Language::JaJp => names::NameWithTitle(JA_JP).fake(),
        Language::En => names::NameWithTitle(EN).fake(),
        Language::ArSa => names::NameWithTitle(AR_SA).fake(),
        Language::FrFr => names::NameWithTitle(FR_FR).fake(),
        Language::PtBr => names::NameWithTitle(PT_BR).fake(),
        Language::ZhCn => names::NameWithTitle(ZH_CN).fake(),
        Language::ZhTw => names::NameWithTitle(ZH_TW).fake(),
    }
}

/// Relies on fake's `faker::internet::raw::FreeEmailProvider`: a free e-mail provider domain, drawn at random.
#[verifier::external_body]
pub(crate) fn draw_free_email_provider(lang: Language) -> String
{
    match lang {
        Language::JaJp => internet::FreeEmailProvider(JA_JP).fake(),
        Language::En => internet::FreeEmailProvider(EN).fake(),
        Language::ArSa => internet::FreeEmailProvider(AR_SA).fake(),
        Language::FrFr => internet::FreeEmailProvider(FR_FR).fake(),
        Language::PtBr => internet::FreeEmailProvider(PT_BR).fake(),
        Language::ZhCn => internet::FreeEmailProvider(ZH_CN).fake(),
        Language::ZhTw => internet::FreeEmailProvider(ZH_TW).fake(),
    }
}

/// Relies on fake's `faker::internet::raw::DomainSuffix`: a domain suffix, drawn at random.
#[verifier::external_body]
pub(crate) fn draw_domain_suffix(lang: Language) -> String
{
    match lang {
        Language::JaJp => internet::DomainSuffix(JA_JP).fake(),
        Language::En => internet::DomainSuffix(EN).fake(),
        Language::ArSa => internet::DomainSuffix(AR_SA).fake(),
        Language::FrFr => internet::DomainSuffix(FR_FR).fake(),
        Language::PtBr => internet::DomainSuffix(PT_BR).fake(),
        Language::ZhCn => internet::DomainSuffix(ZH_CN).fake(),
        Language::ZhTw => internet::DomainSuffix(ZH_TW).fake(),
    }
}

/// Relies on fake's `faker::internet::raw::FreeEmail`: an address at a free e-mail provider, drawn at random.
#[verifier::external_body]
pub(crate) fn draw_free_email(lang: Language) -> String
{
    match lang {
        Language::JaJp => internet::FreeEmail(JA_JP).fake(),
        Language::En => internet::FreeEmail(EN).fake(),
        Language::ArSa => internet::FreeEmail(AR_SA).fake(),
        Language::FrFr => internet::FreeEmail(FR_FR).fake(),
        Language::PtBr => internet::FreeEmail(PT_BR).fake(),
        Language::ZhCn => internet::FreeEmail(ZH_CN).fake(),
        Language::ZhTw => internet::FreeEmail(ZH_TW).fake(),
    }
}

/// Relies on fake's `faker::internet::raw::SafeEmail`: an address at an example domain, drawn at random.
#[verifier::external_body]
pub(crate) fn draw_safe_email(lang: Language) -> String
{
    match lang {
        Language::JaJp => internet::SafeEmail(JA_JP).fake(),
        Language::En => internet::SafeEmail(EN).fake(),
        Language::ArSa => internet::SafeEmail(AR_SA).fake(),
        Language::FrFr => internet::SafeEmail(FR_FR).fake(),
        Language::PtBr => internet::SafeEmail(PT_BR).fake(),
        Language::ZhCn => internet::SafeEmail(ZH_CN).fake(),
        Language::ZhTw => internet::SafeEmail(ZH_TW).fake(),
    }
}

/// Relies on fake's `faker::internet::raw::Username`: a user name, drawn at random.
#[verifier::external_body]
pub(crate) fn draw_username(lang: Language) -> String
{
    match lang {
        Language::JaJp => internet::Username(JA_JP).fake(),
        Language::En => internet::Username(EN).fake(),
        Language::ArSa => internet::Username(AR_SA).fake(),
        Language::FrFr => internet::Username(FR_FR).fake(),
        Language::PtBr => internet::Username(PT_BR).fake(),
        Language::ZhCn => internet::Username(ZH_CN).fake(),
        Language::ZhTw => internet::Username(ZH_TW).fake(),
    }
}

/// Relies on fake's `faker::internet::raw::IPv4`: an IPv4 address in dotted form, drawn at random.
#[verifier::external_body]
pub(crate) fn draw_ip_v4(lang: Language) -> String
{
    match lang {
        Language::JaJp => internet::IPv4(JA_JP).fake(),
        Language::En => internet::IPv4(EN).fake(),
        Language::ArSa => internet::IPv4(AR_SA).fake(),
        Language::FrFr => internet::IPv4(FR_FR).fake(),
        Language::PtBr => internet::IPv4(PT_BR).fake(),
        Language::ZhCn => internet::IPv4(ZH_CN).fake(),
        Language::ZhTw => internet::IPv4(ZH_TW).fake(),
    }
}

/// Relies on fake's `faker::internet::raw::IPv6`: an IPv6 address, drawn at random.
#[verifier::external_body]
pub(crate) fn draw_ip_v6(lang: Language) -> String
{
    match lang {
        Language::JaJp => internet::IPv6(JA_JP).fake(),
        Language::En => internet::IPv6(EN).fake(),
        Language::ArSa => internet::IPv6(AR_SA).fake(),
        Language::FrFr => internet::IPv6(FR_FR).fake(),
        Language::PtBr => internet::IPv6(PT_BR).fake(),
        Language::ZhCn => internet::IPv6(ZH_CN).fake(),
        Language::ZhTw => internet::IPv6(ZH_TW).fake(),
    }
}

/// Relies on fake's `faker::internet::raw::IP`: an IPv4 or IPv6 address, drawn at random.
#[verifier::external_body]
pub(crate) fn draw_ip(lang: Language) -> String
{
    match lang {
        Language::JaJp => internet::IP(JA_JP).fake(),
        Language::En => internet::IP(EN).fake(),
        Language::ArSa => internet::IP(AR_SA).fake(),
        Language::FrFr => internet::IP(FR_FR).fake(),
        Language::PtBr => internet::IP(PT_BR).fake(),
        Language::ZhCn => internet::IP(ZH_CN).fake(),
        Language::ZhTw => internet::IP(ZH_TW).fake(),
    }
}

/// Relies on fake's `faker::internet::raw::MACAddress`: a MAC address, drawn at random.
#[verifier::external_body]
pub(crate) fn draw_mac_address(lang: Language) -> String
{
    match lang {
        Language::JaJp => internet::MACAddress(JA_JP).fake(),
        Language::En => internet::MACAddress(EN).fake(),
        Language::ArSa => internet::MACAddress(AR_SA).fake(),
        Language::FrFr => internet::MACAddress(FR_FR).fake(),
        Language::PtBr => internet::MACAddress(PT_BR).fake(),
        Language::ZhCn => internet::MACAddress(ZH_CN).fake(),
        Language::ZhTw => internet::MACAddress(ZH_TW).fake(),
    }
}

/// Relies on fake's `faker::internet::raw::UserAgent`: a browser user agent string, drawn at random.
#[verifier::external_body]
pub(crate) fn draw_user_agent(lang: Language) -> String
{
    match lang {
        Language::JaJp => internet::UserAgent(JA_JP).fake(),
        Language::En => internet::UserAgent(EN).fake(),
        Language::ArSa => internet::UserAgent(AR_SA).fake(),
        Language::FrFr => internet::UserAgent(FR_FR).fake(),
        Language::PtBr => internet::UserAgent(PT_BR).fake(),
        Language::ZhCn => internet::UserAgent(ZH_CN).fake(),
        Language::ZhTw => internet::UserAgent(ZH_TW).fake(),
    }
}

/// Relies on fake's `faker::number::raw::Digit`: one of the locale's digit
/// strings, which are "0" to "9" in every locale, read as a number.
#[verifier::external_body]
pub(crate) fn draw_digit(lang: Language) -> (r: u8)
    ensures
        r <= 9,
{
    let d: &str = match lang {
        Language::JaJp => number::Digit(JA_JP).fake(),
        Language::En => number::Digit(EN).fake(),
        Language::ArSa => number::Digit(AR_SA).fake(),
        Language::FrFr => number::Digit(FR_FR).fake(),
        Language::PtBr => number::Digit(PT_BR).fake(),
        Language::ZhCn => number::Digit(ZH_CN).fake(),
        Language::ZhTw => number::Digit(ZH_TW).fake(),
    };
    d.parse::<u8>().unwrap()
}

/// Relies on fake's `faker::number::raw::NumberWithFormat`: the format with
/// each `#` replaced by a random digit and each `^` by a random non-zero digit.
#[verifier::external_body]
pub(crate) fn draw_number_with_format(lang: Language, format: &str) -> (r: String)
    ensures
        numerified(format@, r@),
{
    match lang {
        Language::JaJp => number::NumberWithFormat(JA_JP, format).fake(),
        Language::En => number::NumberWithFormat(EN, format).fake(),
        Language::ArSa => number::NumberWithFormat(AR_SA, format).fake(),
        Language::FrFr => number::NumberWithFormat(FR_FR, format).fake(),
        Language::PtBr => number::NumberWithFormat(PT_BR, format).fake(),
        Language::ZhCn => number::NumberWithFormat(ZH_CN, format).fake(),
        Language::ZhTw => number::NumberWithFormat(ZH_TW, format).fake(),
    }
}

/// Relies on fake's `faker::boolean::raw::Boolean`: true when a draw from
/// `0..100` is below the ratio.
#[verifier::external_body]
pub(crate) fn draw_boolean(lang: Language, ratio: u8) -> (r: bool)
    ensures
        ratio == 0 ==> !r,
        ratio >= 100 ==> r,
{
    match lang {
        Language::JaJp => boolean::Boolean(JA_JP, ratio).fake(),
        Language::En => boolean::Boolean(EN, ratio).fake(),
        Language::ArSa => boolean::Boolean(AR_SA, ratio).fake(),
        Language::FrFr => boolean::Boolean(FR_FR, ratio).fake(),
        Language::PtBr => boolean::Boolean(PT_BR, ratio).fake(),
        Language::ZhCn => boolean::Boolean(ZH_CN, ratio).fake(),
        Language::ZhTw => boolean::Boolean(ZH_TW, ratio).fake(),
    }
}

/// Relies on fake's `faker::lorem::raw::Words`: a list of lorem words (each non-empty), its length drawn from `min..max`
/// (the draw panics on an empty range).
#[verifier::external_body]
pub(crate) fn draw_words(lang: Language, min: usize, max: usize) -> (r: Vec<String>)
    requires
        min < max,
    ensures
        min <= r@.len() < max,
        forall|i: int| 0 <= i < r@.len() ==> (#[trigger] r@[i])@.len() > 0,
{
    let range = min..max;
    match lang {
        Language::JaJp => lorem::Words(JA_JP, range).fake(),
        Language::En => lorem::Words(EN, range).fake(),
        Language::ArSa => lorem::Words(AR_SA, range).fake(),
        Language::FrFr => lorem::Words(FR_FR, range).fake(),
        Language::PtBr => lorem::Words(PT_BR, range).fake(),
        Language::ZhCn => lorem::Words(ZH_CN, range).fake(),
        Language::ZhTw => lorem::Words(ZH_TW, range).fake(),
    }
}

/// Relies on fake's `faker::lorem::raw::Sentences`: a list of sentences of 4 to 9 words, its length drawn from `min..max`
/// (the draw panics on an empty range).
#[verifier::external_body]
pub(crate) fn draw_sentences(lang: Language, min: usize, max: usize) -> (r: Vec<String>)
    requires
        min < max,
    ensures
        min <= r@.len() < max,
        forall|i: int| 0 <= i < r@.len() ==> is_sentence((#[trigger] r@[i])@, 4, 10),
{
    let range = min..max;
    match lang {
        Language::JaJp => lorem::Sentences(JA_JP, range).fake(),
        Language::En => lorem::Sentences(EN, range).fake(),
        Language::ArSa => lorem::Sentences(AR_SA, range).fake(),
        Language::FrFr => lorem::Sentences(FR_FR, range).fake(),
        Language::PtBr => lorem::Sentences(PT_BR, range).fake(),
        Language::ZhCn => lorem::Sentences(ZH_CN, range).fake(),
        Language::ZhTw => lorem::Sentences(ZH_TW, range).fake(),
    }
}

/// Relies on fake's `faker::lorem::raw::Paragraphs`: a list of paragraphs of 4 to 6 sentences, its length drawn from `min..max`
/// (the draw panics on an empty range).
#[verifier::external_body]
pub(crate) fn draw_paragraphs(lang: Language, min: usize, max: usize) -> (r: Vec<String>)
    requires
        min < max,
    ensures
        min <= r@.len() < max,
        forall|i: int| 0 <= i < r@.len() ==> is_paragraph((#[trigger] r@[i])@, 4, 7),
{
    let range = min..max;
    match lang {
        Language::JaJp => lorem::Paragraphs(JA_JP, range).fake(),
        Language::En => lorem::Paragraphs(EN, range).fake(),
        Language::ArSa => lorem::Paragraphs(AR_SA, range).fake(),
        Language::FrFr => lorem::Paragraphs(FR_FR, range).fake(),
        Language::PtBr => lorem::Paragraphs(PT_BR, range).fake(),
        Language::ZhCn => lorem::Paragraphs(ZH_CN, range).fake(),
        Language::ZhTw => lorem::Paragraphs(ZH_TW, range).fake(),
    }
}

/// Relies on fake's `faker::lorem::raw::Sentence`: that many non-empty words, the count drawn from `min..max`, joined by spaces and closed by a full stop
/// (the draw panics on an empty range).
#[verifier::external_body]
pub(crate) fn draw_sentence(lang: Language, min: usize, max: usize) -> (r: String)
    requires
        min < max,
    ensures
        is_sentence(r@, min as int, max as int),
{
    let range = min..max;
    match lang {
        Language::JaJp => lorem::Sentence(JA_JP, range).fake(),
        Language::En => lorem::Sentence(EN, range).fake(),
        Language::ArSa => lorem::Sentence(AR_SA, range).fake(),
        Language::FrFr => lorem::Sentence(FR_FR, range).fake(),
        Language::PtBr => lorem::Sentence(PT_BR, range).fake(),
        Language::ZhCn => lorem::Sentence(ZH_CN, range).fake(),
        Language::ZhTw => lorem::Sentence(ZH_TW, range).fake(),
    }
}

/// Relies on fake's `faker::lorem::raw::Paragraph`: that many sentences of 4 to 9 words, the count drawn from `min..max`, joined by line breaks
/// (the draw panics on an empty range).
#[verifier::external_body]
pub(crate) fn draw_paragraph(lang: Language, min: usize, max: usize) -> (r: String)
    requires
        min < max,
    ensures
        is_paragraph(r@, min as int, max as int),
{
    let range = min..max;
    match lang {
        Language::JaJp => lorem::Paragraph(JA_JP, range).fake(),
        Language::En => lorem::Paragraph(EN, range).fake(),
        Language::ArSa => lorem::Paragraph(AR_SA, range).fake(),
        Language::FrFr => lorem::Paragraph(FR_FR, range).fake(),
        Language::PtBr => lorem::Paragraph(PT_BR, range).fake(),
        Language::ZhCn => lorem::Paragraph(ZH_CN, range).fake(),
        Language::ZhTw => lorem::Paragraph(ZH_TW, range).fake(),
    }
}

/// Relies on fake's `faker::internet::raw::Password`: a length drawn from
/// `min..max`, then that many characters of the (non-empty) password alphabet
/// (the draw panics on an empty range).
#[verifier::external_body]
pub(crate) fn draw_password(lang: Language, min: usize, max: usize) -> (r: String)
    requires
        min < max,
    ensures
        min <= r@.len() < max,
{
    let range = min..max;
    match lang {
        Language::JaJp => internet::Password(JA_JP, range).fake(),
        Language::En => internet::Password(EN, range).fake(),
        Language::ArSa => internet::Password(AR_SA, range).fake(),
        Language::FrFr => internet::Password(FR_FR, range).fake(),
        Language::PtBr => internet::Password(PT_BR, range).fake(),
        Language::ZhCn => internet::Password(ZH_CN, range).fake(),
        Language::ZhTw => internet::Password(ZH_TW, range).fake(),
    }
}

/// Relies on fake's `faker::http::raw::RfcStatusCode`: an HTTP status code and reason, drawn at random.
#[verifier::external_body]
pub(crate) fn draw_rfc_status_code(lang: Language) -> String {
    match lang {
        Language::JaJp => http::RfcStatusCode(JA_JP).fake(),
        Language::En => http::RfcStatusCode(EN).fake(),
        Language::ArSa => http::RfcStatusCode(AR_SA).fake(),
        Language::FrFr => http::RfcStatusCode(FR_FR).fake(),
        Language::PtBr => http::RfcStatusCode(PT_BR).fake(),
        Language::ZhCn => http::RfcStatusCode(ZH_CN).fake(),
        Language::ZhTw => http::RfcStatusCode(ZH_TW).fake(),
    }
}

/// Relies on fake's `faker::http::raw::ValidStatusCode`: an HTTP status code from 100 to 599 and its reason, drawn at random.
#[verifier::external_body]
pub(crate) fn draw_valid_status_code(lang: Language) -> String {
    match lang {
        Language::JaJp => http::ValidStatusCode(JA_JP).fake(),
        Language::En => http::ValidStatusCode(EN).fake(),
        Language::ArSa => http::ValidStatusCode(AR_SA).fake(),
        Language::FrFr => http::ValidStatusCode(FR_FR).fake(),
        Language::PtBr => http::ValidStatusCode(PT_BR).fake(),
        Language::ZhCn => http::ValidStatusCode(ZH_CN).fake(),
        Language::ZhTw => http::ValidStatusCode(ZH_TW).fake(),
    }
}

/// Relies on fake's `faker::color::raw::HexColor`: a colour in hex notation, drawn at random.
#[verifier::external_body]
pub(crate) fn draw_hex_color(lang: Language) -> String {
    match lang {
        Language::JaJp => color::HexColor(JA_JP).fake(),
        Language::En => color::HexColor(EN).fake(),
        Language::ArSa => color::HexColor(AR_SA).fake(),
        Language::FrFr => color::HexColor(FR_FR).fake(),
        Language::PtBr => color::HexColor(PT_BR).fake(),
        Language::ZhCn => color::HexColor(ZH_CN).fake(),
        Language::ZhTw => color::HexColor(ZH_TW).fake(),
    }
}

/// Relies on fake's `faker::color::raw::RgbColor`: a colour in rgb() notation, drawn at random.
#[verifier::external_body]
pub(crate) fn draw_rgb_color(lang: Language) -> String {
    match lang {
        Language::JaJp => color::RgbColor(JA_JP).fake(),
        Language::En => color::RgbColor(EN).fake(),
        Language::ArSa => color::RgbColor(AR_SA).fake(),
        Language::FrFr => color::RgbColor(FR_FR).fake(),
        Language::PtBr => color::RgbColor(PT_BR).fake(),
        Language::ZhCn => color::RgbColor(ZH_CN).fake(),
        Language::ZhTw => color::RgbColor(ZH_TW).fake(),
    }
}

/// Relies on fake's `faker::color::raw::RgbaColor`: a colour in rgba() notation, drawn at random.
#[verifier::external_body]
pub(crate) fn draw_rgba_color(lang: Language) -> String {
    match lang {
        Language::JaJp => color::RgbaColor(JA_JP).fake(),
        Language::En => color::RgbaColor(EN).fake(),
        Language::ArSa => color::RgbaColor(AR_SA).fake(),
        Language::FrFr => color::RgbaColor(FR_FR).fake(),
        Language::PtBr => color::RgbaColor(PT_BR).fake(),
        Language::ZhCn => color::RgbaColor(ZH_CN).fake(),
        Language::ZhTw => color::RgbaColor(ZH_TW).fake(),
    }
}

/// Relies on fake's `faker::color::raw::HslColor`: a colour in hsl() notation, drawn at random.
#[verifier::external_body]
pub(crate) fn draw_hsl_color(lang: Language) -> String {
    match lang {
        Language::JaJp => color::HslColor(JA_JP).fake(),
        Language::En => color::HslColor(EN).fake(),
        Language::ArSa => color::HslColor(AR_SA).fake(),
        Language::FrFr => color::HslColor(FR_FR).fake(),
        Language::PtBr => color::HslColor(PT_BR).fake(),
        Language::ZhCn => color::HslColor(ZH_CN).fake(),
        Language::ZhTw => color::HslColor(ZH_TW).fake(),
    }
}

/// Relies on fake's `faker::color::raw::HslaColor`: a colour in hsla() notation, drawn at random.
#[verifier::external_body]
pub(crate) fn draw_hsla_color(lang: Language) -> String {
    match lang {
        Language::JaJp => color::HslaColor(JA_JP).fake(),
        Language::En => color::HslaColor(EN).fake(),
        Language::ArSa => color::HslaColor(AR_SA).fake(),
        Language::FrFr => color::HslaColor(FR_FR).fake(),
        Language::PtBr => color::HslaColor(PT_BR).fake(),
        Language::ZhCn => color::HslaColor(ZH_CN).fake(),
        Language::ZhTw => color::HslaColor(ZH_TW).fake(),
    }
}

/// Relies on fake's `faker::color::raw::Color`: a colour in one of the notations, drawn at random.
#[verifier::external_body]
pub(crate) fn draw_color(lang: Language) -> String {
    match lang {
        Language::JaJp => color::Color(JA_JP).fake(),
        Language::En => color::Color(EN).fake(),
        Language::ArSa => color::Color(AR_SA).fake(),
        Language::FrFr => color::Color(FR_FR).fake(),
        Language::PtBr => color::Color(PT_BR).fake(),
        Language::ZhCn => color::Color(ZH_CN).fake(),
        Language::ZhTw => color::Color(ZH_TW).fake(),
    }
}

/// Relies on fake's `faker::company::raw::CompanySuffix`: a company suffix, drawn at random.
#[verifier::external_body]
pub(crate) fn draw_company_suffix(lang: Language) -> String {
    match lang {
        Language::JaJp => company::CompanySuffix(JA_JP).fake(),
        Language::En => company::CompanySuffix(EN).fake(),
        Language::ArSa => company::CompanySuffix(AR_SA).fake(),
        Language::FrFr => company::CompanySuffix(FR_FR).fake(),
        Language::PtBr => company::CompanySuffix(PT_BR).fake(),
        Language::ZhCn => company::CompanySuffix(ZH_CN).fake(),
        Language::ZhTw => company::CompanySuffix(ZH_TW).fake(),
    }
}

/// Relies on fake's `faker::company::raw::CompanyName`: a company name, drawn at random.
#[verifier::external_body]
pub(crate) fn draw_company_name(lang: Language) -> String {
    match lang {
        Language::JaJp => company::CompanyName(JA_JP).fake(),
        Language::En => company::CompanyName(EN).fake(),
        Language::ArSa => company::CompanyName(AR_SA).fake(),
        Language::FrFr => company::CompanyName(FR_FR).fake(),
        Language::PtBr => company::CompanyName(PT_BR).fake(),
        Language::ZhCn => company::CompanyName(ZH_CN).fake(),
        Language::ZhTw => company::CompanyName(ZH_TW).fake(),
    }
}

/// Relies on fake's `faker::company::raw::Buzzword`: a buzzword, drawn at random.
#[verifier::external_body]
pub(crate) fn draw_buzzword(lang: Language) -> String {
    match lang {
        Language::JaJp => company::Buzzword(JA_JP).fake(),
        Language::En => company::Buzzword(EN).fake(),
        Language::ArSa => company::Buzzword(AR_SA).fake(),
        Language::FrFr => company::Buzzword(FR_FR).fake(),
        Language::PtBr => company::Buzzword(PT_BR).fake(),
        Language::ZhCn => company::Buzzword(ZH_CN).fake(),
        Language::ZhTw => company::Buzzword(ZH_TW).fake(),
    }
}

/// Relies on fake's `faker::company::raw::BuzzwordMiddle`: a middle buzzword, drawn at random.
#[verifier::external_body]
pub(crate) fn draw_buzzword_middle(lang: Language) -> String {
    match lang {
        Language::JaJp => company::BuzzwordMiddle(JA_JP).fake(),
        Language::En => company::BuzzwordMiddle(EN).fake(),
        Language::ArSa => company::BuzzwordMiddle(AR_SA).fake(),
        Language::FrFr => company::BuzzwordMiddle(FR_FR).fake(),
        Language::PtBr => company::BuzzwordMiddle(PT_BR).fake(),
        Language::ZhCn => company::BuzzwordMiddle(ZH_CN).fake(),
        Language::ZhTw => company::BuzzwordMiddle(ZH_TW).fake(),
    }
}

/// Relies on fake's `faker::company::raw::BuzzwordTail`: a closing buzzword, drawn at random.
#[verifier::external_body]
pub(crate) fn draw_buzzword_tail(lang: Language) -> String {
    match lang {
        Language::JaJp => company::BuzzwordTail(JA_JP).fake(),
        Language::En => company::BuzzwordTail(EN).fake(),
        Language::ArSa => company::BuzzwordTail(AR_SA).fake(),
        Language::FrFr => company::BuzzwordTail(FR_FR).fake(),
        Language::PtBr => company::BuzzwordTail(PT_BR).fake(),
        Language::ZhCn => company::BuzzwordTail(ZH_CN).fake(),
        Language::ZhTw => company::BuzzwordTail(ZH_TW).fake(),
    }
}

/// Relies on fake's `faker::company::raw::CatchPhrase`: a catch phrase, drawn at random.
#[verifier::external_body]
pub(crate) fn draw_catch_phrase(lang: Language) -> String {
    match lang {
        Language::JaJp => company::CatchPhrase(JA_JP).fake(),
        Language::En => company::CatchPhrase(EN).fake(),
        Language::ArSa => company::CatchPhrase(AR_SA).fake(),
        Language::FrFr => company::CatchPhrase(FR_FR).fake(),
        Language::PtBr => company::CatchPhrase(PT_BR).fake(),
        Language::ZhCn => company::CatchPhrase(ZH_CN).fake(),
        Language::ZhTw => company::CatchPhrase(ZH_TW).fake(),
    }
}

/// Relies on fake's `faker::company::raw::BsVerb`: a business verb, drawn at random.
#[verifier::external_body]
pub(crate) fn draw_bs_verb(lang: Language) -> String {
    match lang {
        Language::JaJp => company::BsVerb(JA_JP).fake(),
        Language::En => company::BsVerb(EN).fake(),
        Language::ArSa => company::BsVerb(AR_SA).fake(),
        Language::FrFr => company::BsVerb(FR_FR).fake(),
        Language::PtBr => company::BsVerb(PT_BR).fake(),
        Language::ZhCn => company::BsVerb(ZH_CN).fake(),
        Language::ZhTw => company::BsVerb(ZH_TW).fake(),
    }
}

/// Relies on fake's `faker::company::raw::BsAdj`: a business adjective, drawn at random.
#[verifier::external_body]
pub(crate) fn draw_bs_adj(lang: Language) -> String {
    match lang {
        Language::JaJp => company::BsAdj(JA_JP).fake(),
        Language::En => company::BsAdj(EN).fake(),
        Language::ArSa => company::BsAdj(AR_SA).fake(),
        Language::FrFr => company::BsAdj(FR_FR).fake(),
        Language::PtBr => company::BsAdj(PT_BR).fake(),
        Language::ZhCn => company::BsAdj(ZH_CN).fake(),
        Language::ZhTw => company::BsAdj(ZH_TW).fake(),
    }
}

/// Relies on fake's `faker::company::raw::BsNoun`: a business noun, drawn at random.
#[verifier::external_body]
pub(crate) fn draw_bs_noun(lang: Language) -> String {
    match lang {
        Language::JaJp => company::BsNoun(JA_JP).fake(),
        Language::En => company::BsNoun(EN).fake(),
        Language::ArSa => company::BsNoun(AR_SA).fake(),
        Language::FrFr => company::BsNoun(FR_FR).fake(),
        Language::PtBr => company::BsNoun(PT_BR).fake(),
        Language::ZhCn => company::BsNoun(ZH_CN).fake(),
        Language::ZhTw => company::BsNoun(ZH_TW).fake(),
    }
}

/// Relies on fake's `faker::company::raw::Bs`: a business phrase, drawn at random.
#[verifier::external_body]
pub(crate) fn draw_bs(lang: Language) -> String {
    match lang {
        Language::JaJp => company::Bs(JA_JP).fake(),
        Language::En => company::Bs(EN).fake(),
        Language::ArSa => company::Bs(AR_SA).fake(),
        Language::FrFr => company::Bs(FR_FR).fake(),
        Language::PtBr => company::Bs(PT_BR).fake(),
        Language::ZhCn => company::Bs(ZH_CN).fake(),
        Language::ZhTw => company::Bs(ZH_TW).fake(),
    }
}

/// Relies on fake's `faker::company::raw::Profession`: a profession, drawn at random.
#[verifier::external_body]
pub(crate) fn draw_profession(lang: Language) -> String {
    match lang {
        Language::JaJp => company::Profession(JA_JP).fake(),
        Language::En => company::Profession(EN).fake(),
        Language::ArSa => company::Profession(AR_SA).fake(),
        Language::FrFr => company::Profession(FR_FR).fake(),
        Language::PtBr => company::Profession(PT_BR).fake(),
        Language::ZhCn => company::Profession(ZH_CN).fake(),
        Language::ZhTw => company::Profession(ZH_TW).fake(),
    }
}

/// Relies on fake's `faker::company::raw::Industry`: an industry, drawn at random.
#[verifier::external_body]
pub(crate) fn draw_industry(lang: Language) -> String {
    match lang {
        Language::JaJp => company::Industry(JA_JP).fake(),
        Language::En => company::Industry(EN).fake(),
        Language::ArSa => company::Industry(AR_SA).fake(),
        Language::FrFr => company::Industry(FR_FR).fake(),
        Language::PtBr => company::Industry(PT_BR).fake(),
        Language::ZhCn => company::Industry(ZH_CN).fake(),
        Language::ZhTw => company::Industry(ZH_TW).fake(),
    }
}

} // verus!
