use vstd::prelude::*;
use crate::error::FakerTypeError;
use crate::json::{lemma_view_entries, str_eq, string_array, view_entries, JVal, Json, Number, NumberV};
use crate::element::lemma_insert_at;
use crate::generator::{ranged_outcome, scalar_outcome, sorted_by_name, RangedKind, ScalarKind};
use crate::lang::Language;
use crate::laws::lemma_sort_fields;
use crate::order::{lex_lt, str_lt};
use crate::schema::{insert_sorted, sort_fields};
use crate::provider::{
    draw_boolean, draw_bs, draw_bs_adj, draw_bs_noun, draw_bs_verb, draw_buzzword, draw_buzzword_middle, draw_buzzword_tail, draw_catch_phrase, draw_color, draw_company_name, draw_company_suffix, draw_digit, draw_domain_suffix, draw_first_name, draw_free_email, draw_free_email_provider, draw_hex_color, draw_hsl_color, draw_hsla_color, draw_industry, draw_ip, draw_ip_v4, draw_ip_v6, draw_last_name, draw_mac_address, draw_name, draw_name_with_title, draw_number_with_format, draw_paragraph, draw_paragraphs, draw_password, draw_profession, draw_rfc_status_code, draw_rgb_color, draw_rgba_color, draw_safe_email, draw_sentence, draw_sentences, draw_suffix, draw_title, draw_user_agent, draw_username, draw_valid_status_code, draw_word, draw_words,
    numerified,
};

verus! {

/// Every generator of the name table, each with its fixed locale and parameters.
#[derive(Clone, Copy, PartialEq, Eq, Debug, Structural)]
pub enum FakerType {
    Word,
    Words,
    Sentence,
    Sentences,
    Paragraph,
    Paragraphs,
    FirstName,
    LastName,
    Title,
    Suffix,
    Name,
    NameWithTitle,
    Digit,
    NumberWithFormat,
    Boolean,
    FreeEmailProvider,
    DomainSuffix,
    FreeEmail,
    SafeEmail,
    Username,
    Password,
    IPv4,
    IPv6,
    IP,
    MACAddress,
    UserAgent,
    RfcStatusCode,
    ValidStatusCode,
    HexColor,
    RgbColor,
    RgbaColor,
    HslColor,
    HslaColor,
    Color,
    CompanySuffix,
    CompanyName,
    Buzzword,
    BuzzwordMiddle,
    BuzzwordTail,
    CatchPhrase,
    BsVerb,
    BsAdj,
    BsNoun,
    Bs,
    Profession,
    Industry,
}

/// The generator that a name stands for, if any.
pub open spec fn faker_type_of(name: Seq<char>) -> Option<FakerType> {
    if name == "first_name"@ {
        Some(FakerType::FirstName)
    } else if name == "last_name"@ {
        Some(FakerType::LastName)
    } else if name == "title"@ {
        Some(FakerType::Title)
    } else if name == "suffix"@ {
        Some(FakerType::Suffix)
    } else if name == "name"@ {
        Some(FakerType::Name)
    } else if name == "name_with_title"@ {
        Some(FakerType::NameWithTitle)
    } else if name == "digit"@ {
        Some(FakerType::Digit)
    } else if name == "number_with_format"@ {
        Some(FakerType::NumberWithFormat)
    } else if name == "boolean"@ {
        Some(FakerType::Boolean)
    } else if name == "free_email_provider"@ {
        Some(FakerType::FreeEmailProvider)
    } else if name == "domain_suffix"@ {
        Some(FakerType::DomainSuffix)
    } else if name == "free_email"@ {
        Some(FakerType::FreeEmail)
    } else if name == "safe_email"@ {
        Some(FakerType::SafeEmail)
    } else if name == "username"@ {
        Some(FakerType::Username)
    } else if name == "password"@ {
        Some(FakerType::Password)
    } else if name == "ip_v4"@ {
        Some(FakerType::IPv4)
    } else if name == "ip_v6"@ {
        Some(FakerType::IPv6)
    } else if name == "ip"@ {
        Some(FakerType::IP)
    } else if name == "mac_address"@ {
        Some(FakerType::MACAddress)
    } else if name == "user_agent"@ {
        Some(FakerType::UserAgent)
    } else if name == "rfc_status_code"@ {
        Some(FakerType::RfcStatusCode)
    } else if name == "valid_status_code"@ {
        Some(FakerType::ValidStatusCode)
    } else if name == "word"@ {
        Some(FakerType::Word)
    } else if name == "words"@ {
        Some(FakerType::Words)
    } else if name == "sentence"@ {
        Some(FakerType::Sentence)
    } else if name == "sentences"@ {
        Some(FakerType::Sentences)
    } else if name == "paragraph"@ {
        Some(FakerType::Paragraph)
    } else if name == "paragraphs"@ {
        Some(FakerType::Paragraphs)
    } else if name == "hex_color"@ {
        Some(FakerType::HexColor)
    } else if name == "rgb_color"@ {
        Some(FakerType::RgbColor)
    } else if name == "rgba_color"@ {
        Some(FakerType::RgbaColor)
    } else if name == "hsl_color"@ {
        Some(FakerType::HslColor)
    } else if name == "hsla_color"@ {
        Some(FakerType::HslaColor)
    } else if name == "color"@ {
        Some(FakerType::Color)
    } else if name == "company_suffix"@ {
        Some(FakerType::CompanySuffix)
    } else if name == "company_name"@ {
        Some(FakerType::CompanyName)
    } else if name == "buzzword"@ {
        Some(FakerType::Buzzword)
    } else if name == "buzzword_middle"@ {
        Some(FakerType::BuzzwordMiddle)
    } else if name == "buzzword_tail"@ {
        Some(FakerType::BuzzwordTail)
    } else if name == "catch_phrase"@ {
        Some(FakerType::CatchPhrase)
    } else if name == "bs_verb"@ {
        Some(FakerType::BsVerb)
    } else if name == "bs_adj"@ {
        Some(FakerType::BsAdj)
    } else if name == "bs_noun"@ {
        Some(FakerType::BsNoun)
    } else if name == "bs"@ {
        Some(FakerType::Bs)
    } else if name == "profession"@ {
        Some(FakerType::Profession)
    } else if name == "industry"@ {
        Some(FakerType::Industry)
    } else {
        None
    }
}

/// What `FakerType::fake` may give for each generator.
pub open spec fn faker_outcome(t: FakerType, v: JVal) -> bool {
    match t {
        FakerType::Words => ranged_outcome(RangedKind::Words, 3, 5, v),
        FakerType::Sentence => ranged_outcome(RangedKind::Sentence, 3, 5, v),
        FakerType::Sentences => ranged_outcome(RangedKind::Sentences, 3, 5, v),
        FakerType::Paragraph => ranged_outcome(RangedKind::Paragraph, 3, 5, v),
        FakerType::Paragraphs => ranged_outcome(RangedKind::Paragraphs, 3, 5, v),
        FakerType::Password => ranged_outcome(RangedKind::Password, 8, 20, v),
        FakerType::Word => scalar_outcome(ScalarKind::Word, v),
        FakerType::Digit => match v {
            JVal::Num(NumberV::PosInt(d)) => d <= 9,
            _ => false,
        },
        FakerType::NumberWithFormat => match v {
            JVal::Str(s) => numerified("FLAT 0# ^#/F"@, s),
            _ => false,
        },
        FakerType::Boolean => v is Bool,
        _ => v is Str,
    }
}

impl FakerType {
    /// Looks a generator up by name.
    pub fn try_from(value: String) -> (r: Result<FakerType, FakerTypeError>)
        ensures
            match faker_type_of(value@) {
                Some(t) => r == Ok::<_, FakerTypeError>(t),
                None => r == Err::<FakerType, _>(FakerTypeError::InvalidType),
            },
    {
        if str_eq(value.as_str(), "first_name") {
            Ok(FakerType::FirstName)
        } else if str_eq(value.as_str(), "last_name") {
            Ok(FakerType::LastName)
        } else if str_eq(value.as_str(), "title") {
            Ok(FakerType::Title)
        } else if str_eq(value.as_str(), "suffix") {
            Ok(FakerType::Suffix)
        } else if str_eq(value.as_str(), "name") {
            Ok(FakerType::Name)
        } else if str_eq(value.as_str(), "name_with_title") {
            Ok(FakerType::NameWithTitle)
        } else if str_eq(value.as_str(), "digit") {
            Ok(FakerType::Digit)
        } else if str_eq(value.as_str(), "number_with_format") {
            Ok(FakerType::NumberWithFormat)
        } else if str_eq(value.as_str(), "boolean") {
            Ok(FakerType::Boolean)
        } else if str_eq(value.as_str(), "free_email_provider") {
            Ok(FakerType::FreeEmailProvider)
        } else if str_eq(value.as_str(), "domain_suffix") {
            Ok(FakerType::DomainSuffix)
        } else if str_eq(value.as_str(), "free_email") {
            Ok(FakerType::FreeEmail)
        } else if str_eq(value.as_str(), "safe_email") {
            Ok(FakerType::SafeEmail)
        } else if str_eq(value.as_str(), "username") {
            Ok(FakerType::Username)
        } else if str_eq(value.as_str(), "password") {
            Ok(FakerType::Password)
        } else if str_eq(value.as_str(), "ip_v4") {
            Ok(FakerType::IPv4)
        } else if str_eq(value.as_str(), "ip_v6") {
            Ok(FakerType::IPv6)
        } else if str_eq(value.as_str(), "ip") {
            Ok(FakerType::IP)
        } else if str_eq(value.as_str(), "mac_address") {
            Ok(FakerType::MACAddress)
        } else if str_eq(value.as_str(), "user_agent") {
            Ok(FakerType::UserAgent)
        } else if str_eq(value.as_str(), "rfc_status_code") {
            Ok(FakerType::RfcStatusCode)
        } else if str_eq(value.as_str(), "valid_status_code") {
            Ok(FakerType::ValidStatusCode)
        } else if str_eq(value.as_str(), "word") {
            Ok(FakerType::Word)
        } else if str_eq(value.as_str(), "words") {
            Ok(FakerType::Words)
        } else if str_eq(value.as_str(), "sentence") {
            Ok(FakerType::Sentence)
        } else if str_eq(value.as_str(), "sentences") {
            Ok(FakerType::Sentences)
        } else if str_eq(value.as_str(), "paragraph") {
            Ok(FakerType::Paragraph)
        } else if str_eq(value.as_str(), "paragraphs") {
            Ok(FakerType::Paragraphs)
        } else if str_eq(value.as_str(), "hex_color") {
            Ok(FakerType::HexColor)
        } else if str_eq(value.as_str(), "rgb_color") {
            Ok(FakerType::RgbColor)
        } else if str_eq(value.as_str(), "rgba_color") {
            Ok(FakerType::RgbaColor)
        } else if str_eq(value.as_str(), "hsl_color") {
            Ok(FakerType::HslColor)
        } else if str_eq(value.as_str(), "hsla_color") {
            Ok(FakerType::HslaColor)
        } else if str_eq(value.as_str(), "color") {
            Ok(FakerType::Color)
        } else if str_eq(value.as_str(), "company_suffix") {
            Ok(FakerType::CompanySuffix)
        } else if str_eq(value.as_str(), "company_name") {
            Ok(FakerType::CompanyName)
        } else if str_eq(value.as_str(), "buzzword") {
            Ok(FakerType::Buzzword)
        } else if str_eq(value.as_str(), "buzzword_middle") {
            Ok(FakerType::BuzzwordMiddle)
        } else if str_eq(value.as_str(), "buzzword_tail") {
            Ok(FakerType::BuzzwordTail)
        } else if str_eq(value.as_str(), "catch_phrase") {
            Ok(FakerType::CatchPhrase)
        } else if str_eq(value.as_str(), "bs_verb") {
            Ok(FakerType::BsVerb)
        } else if str_eq(value.as_str(), "bs_adj") {
            Ok(FakerType::BsAdj)
        } else if str_eq(value.as_str(), "bs_noun") {
            Ok(FakerType::BsNoun)
        } else if str_eq(value.as_str(), "bs") {
            Ok(FakerType::Bs)
        } else if str_eq(value.as_str(), "profession") {
            Ok(FakerType::Profession)
        } else if str_eq(value.as_str(), "industry") {
            Ok(FakerType::Industry)
        } else {
            Err(FakerTypeError::InvalidType)
        }
    }

    /// Draws one value from the generator.
    pub fn fake(&self) -> (r: Json)
        ensures
            faker_outcome(*self, r@),
    {
        match self {
            FakerType::Word => Json::String(draw_word(Language::JaJp)),
            FakerType::Words => string_array(draw_words(Language::JaJp, 3, 5)),
            FakerType::Sentence => Json::String(draw_sentence(Language::JaJp, 3, 5)),
            FakerType::Sentences => string_array(draw_sentences(Language::JaJp, 3, 5)),
            FakerType::Paragraph => Json::String(draw_paragraph(Language::JaJp, 3, 5)),
            FakerType::Paragraphs => string_array(draw_paragraphs(Language::JaJp, 3, 5)),
            FakerType::FirstName => Json::String(draw_first_name(Language::JaJp)),
            FakerType::LastName => Json::String(draw_last_name(Language::JaJp)),
            FakerType::Title => Json::String(draw_title(Language::JaJp)),
            FakerType::Suffix => Json::String(draw_suffix(Language::JaJp)),
            FakerType::Name => Json::String(draw_name(Language::JaJp)),
            FakerType::NameWithTitle => Json::String(draw_name_with_title(Language::JaJp)),
            FakerType::Digit => Json::Number(Number::PosInt(draw_digit(Language::JaJp) as u64)),
            FakerType::NumberWithFormat => Json::String(draw_number_with_format(Language::JaJp, "FLAT 0# ^#/F")),
            FakerType::Boolean => Json::Bool(draw_boolean(Language::JaJp, 50)),
            FakerType::FreeEmailProvider => Json::String(draw_free_email_provider(Language::En)),
            FakerType::DomainSuffix => Json::String(draw_domain_suffix(Language::JaJp)),
            FakerType::FreeEmail => Json::String(draw_free_email(Language::En)),
            FakerType::SafeEmail => Json::String(draw_safe_email(Language::En)),
            FakerType::Username => Json::String(draw_username(Language::JaJp)),
            FakerType::Password => Json::String(draw_password(Language::JaJp, 8, 20)),
            FakerType::IPv4 => Json::String(draw_ip_v4(Language::JaJp)),
            FakerType::IPv6 => Json::String(draw_ip_v6(Language::JaJp)),
            FakerType::IP => Json::String(draw_ip(Language::JaJp)),
            FakerType::MACAddress => Json::String(draw_mac_address(Language::JaJp)),
            FakerType::UserAgent => Json::String(draw_user_agent(Language::JaJp)),
            FakerType::RfcStatusCode => Json::String(draw_rfc_status_code(Language::JaJp)),
            FakerType::ValidStatusCode => Json::String(draw_valid_status_code(Language::JaJp)),
            FakerType::HexColor => Json::String(draw_hex_color(Language::JaJp)),
            FakerType::RgbColor => Json::String(draw_rgb_color(Language::JaJp)),
            FakerType::RgbaColor => Json::String(draw_rgba_color(Language::JaJp)),
            FakerType::HslColor => Json::String(draw_hsl_color(Language::JaJp)),
            FakerType::HslaColor => Json::String(draw_hsla_color(Language::JaJp)),
            FakerType::Color => Json::String(draw_color(Language::JaJp)),
            FakerType::CompanySuffix => Json::String(draw_company_suffix(Language::JaJp)),
            FakerType::CompanyName => Json::String(draw_company_name(Language::JaJp)),
            FakerType::Buzzword => Json::String(draw_buzzword(Language::JaJp)),
            FakerType::BuzzwordMiddle => Json::String(draw_buzzword_middle(Language::JaJp)),
            FakerType::BuzzwordTail => Json::String(draw_buzzword_tail(Language::JaJp)),
            FakerType::CatchPhrase => Json::String(draw_catch_phrase(Language::JaJp)),
            FakerType::BsVerb => Json::String(draw_bs_verb(Language::JaJp)),
            FakerType::BsAdj => Json::String(draw_bs_adj(Language::JaJp)),
            FakerType::BsNoun => Json::String(draw_bs_noun(Language::JaJp)),
            FakerType::Bs => Json::String(draw_bs(Language::JaJp)),
            FakerType::Profession => Json::String(draw_profession(Language::JaJp)),
            FakerType::Industry => Json::String(draw_industry(Language::JaJp)),
        }
    }
}

/// The generator that a definition value names: a string holding a name of the
/// table.
pub open spec fn named_faker(v: JVal) -> Option<FakerType> {
    match v {
        JVal::Str(s) => faker_type_of(s),
        _ => None,
    }
}

/// Inserts an entry among entries ordered by key, replacing an entry with the
/// same key.
fn insert_entry(entries: &mut Vec<(String, Json)>, key: String, value: Json)
    ensures
        view_entries(final(entries)@) == insert_sorted(view_entries(old(entries)@), (key@, value@)),
{
    let ghost s = view_entries(entries@);
    let ghost e = (key@, value@);
    proof {
        lemma_view_entries(entries@);
    }
    let mut p: usize = 0;
    while p < entries.len() && str_lt(entries[p].0.as_str(), key.as_str())
        invariant
            p <= entries@.len(),
            s == view_entries(entries@),
            s.len() == entries@.len(),
            forall|j: int| 0 <= j < s.len() ==> #[trigger] s[j] == (entries@[j].0@, entries@[j].1@),
            e == (key@, value@),
            forall|j: int| 0 <= j < p ==> lex_lt(#[trigger] s[j].0, e.0),
        decreases entries.len() - p,
    {
        p = p + 1;
    }
    proof {
        lemma_insert_at(s, e, p as int);
    }
    let same = p < entries.len() && str_eq(entries[p].0.as_str(), key.as_str());
    if same {
        entries.remove(p);
    }
    entries.insert(p, (key, value));
    proof {
        lemma_view_entries(entries@);
        if same {
            assert(view_entries(entries@) =~= s.update(p as int, e));
        } else {
            assert(view_entries(entries@) =~= s.insert(p as int, e));
        }
    }
}

/// Orders entries by key (of two with one key, the later stays).
fn sort_entries(items: Vec<(String, Json)>) -> (r: Vec<(String, Json)>)
    ensures
        view_entries(r@) == sort_fields(view_entries(items@)),
{
    let ghost ks = view_entries(items@);
    proof {
        lemma_view_entries(items@);
    }
    let mut rest = items;
    let mut out: Vec<(String, Json)> = Vec::new();
    let mut i: usize = 0;
    let n = rest.len();
    assert(ks.subrange(0, 0) =~= Seq::<(Seq<char>, JVal)>::empty());
    while 0 < rest.len()
        invariant
            n == ks.len(),
            i + rest@.len() == n,
            forall|j: int| i <= j < n ==> #[trigger] ks[j] == (rest@[j - i].0@, rest@[j - i].1@),
            view_entries(out@) == sort_fields(ks.subrange(0, i as int)),
        decreases rest.len(),
    {
        let ghost old_rest = rest@;
        let (k, v) = rest.remove(0);
        let ghost before = ks.subrange(0, i as int);
        assert(ks[i as int] == (old_rest[0].0@, old_rest[0].1@));
        assert(ks[i as int] == (k@, v@));
        assert(forall|j: int| 0 <= j < rest@.len() ==> rest@[j] == old_rest[j + 1]);
        insert_entry(&mut out, k, v);
        assert(ks.subrange(0, i + 1).drop_last() =~= before);
        assert(ks.subrange(0, i + 1).last() == ks[i as int]);
        i = i + 1;
    }
    assert(ks.subrange(0, i as int) =~= ks);
    out
}

/// The entries drawn for a definition, before ordering: the same keys in the
/// same order, each value drawn from the generator that the entry names.
pub open spec fn dummy_output(es: Seq<(Seq<char>, JVal)>, out: Seq<(Seq<char>, JVal)>) -> bool {
    &&& out.len() == es.len()
    &&& forall|i: int|
        0 <= i < es.len() ==> (#[trigger] out[i]).0 == es[i].0 && entry_outcome(es[i].1, out[i].1)
}

/// Whether `o` may be drawn for a definition value `e`.
pub open spec fn entry_outcome(e: JVal, o: JVal) -> bool {
    match named_faker(e) {
        Some(t) => faker_outcome(t, o),
        None => false,
    }
}

/// The object drawn for a definition: keys in ascending order, each with a
/// value drawn from the generator that an entry with that key names; it is
/// the ordering of entries drawn one per input entry.
pub open spec fn dummy_sorted(es: Seq<(Seq<char>, JVal)>, out: Seq<(Seq<char>, JVal)>) -> bool {
    &&& sorted_by_name(out)
    &&& exists|drawn: Seq<(Seq<char>, JVal)>|
        dummy_output(es, drawn) && out == #[trigger] sort_fields(drawn)
    &&& forall|k: int|
        0 <= k < out.len() ==> exists|i: int|
            0 <= i < es.len() && #[trigger] es[i].0 == (#[trigger] out[k]).0 && entry_outcome(
                es[i].1,
                out[k].1,
            )
}

/// What `generate_dummy_data` gives: for an object, the sorted drawn object,
/// or an error exactly when some value names no generator; for anything else,
/// an empty object.
pub open spec fn dummy_result(input: JVal, r: Result<JVal, FakerTypeError>) -> bool {
    match input {
        JVal::Obj(es) => match r {
            Ok(v) => v matches JVal::Obj(out) && dummy_sorted(es, out),
            Err(_) => exists|i: int| 0 <= i < es.len() && named_faker(#[trigger] es[i].1) is None,
        },
        _ => r == Ok::<_, FakerTypeError>(JVal::Obj(Seq::empty())),
    }
}

/// Draws one value for each entry, keeping the keys and their order.
#[verifier::loop_isolation(false)]
fn draw_entries(map: &Vec<(String, Json)>) -> (r: Result<Vec<(String, Json)>, FakerTypeError>)
    ensures
        match r {
            Ok(out) => dummy_output(view_entries(map@), view_entries(out@)),
            Err(_) => exists|i: int|
                0 <= i < map@.len() && named_faker(#[trigger] view_entries(map@)[i].1) is None,
        },
{
    let ghost es = view_entries(map@);
    proof {
        lemma_view_entries(map@);
    }
    let mut out: Vec<(String, Json)> = Vec::new();
    let mut i: usize = 0;
    while i < map.len()
        invariant
            i <= map@.len(),
            es == view_entries(map@),
            es.len() == map@.len(),
            forall|j: int| 0 <= j < es.len() ==> #[trigger] es[j] == (map@[j].0@, map@[j].1@),
            out@.len() == i,
            forall|j: int|
                0 <= j < i ==> (#[trigger] out@[j]).0@ == es[j].0 && entry_outcome(es[j].1, out@[j].1@),
        decreases map.len() - i,
    {
        let name = match &map[i].1 {
            Json::String(s) => s.clone(),
            _ => {
                assert(named_faker(es[i as int].1) is None);
                return Err(FakerTypeError::InvalidType);
            },
        };
        let command = match FakerType::try_from(name) {
            Ok(t) => t,
            Err(e) => {
                assert(named_faker(es[i as int].1) is None);
                return Err(e);
            },
        };
        let v = command.fake();
        assert(named_faker(es[i as int].1) == Some(command));
        assert(entry_outcome(es[i as int].1, v@));
        out.push((map[i].0.clone(), v));
        i = i + 1;
    }
    proof {
        lemma_view_entries(out@);
        let ov = view_entries(out@);
        assert forall|k: int| 0 <= k < es.len() implies (#[trigger] ov[k]).0 == es[k].0
            && entry_outcome(es[k].1, ov[k].1) by {
            assert(ov[k] == (out@[k].0@, out@[k].1@));
        }
        assert(dummy_output(es, ov));
    }
    Ok(out)
}

/// Draws one value for each entry of an object that maps keys to generator
/// names, giving an object with the keys in ascending order (of two entries
/// with one key, the later stays); anything but an object gives an empty
/// object.
pub fn generate_dummy_data(json_data: &Json) -> (r: Result<Json, FakerTypeError>)
    ensures
        dummy_result(
            json_data@,
            match r {
                Ok(v) => Ok(v@),
                Err(e) => Err(e),
            },
        ),
{
    match json_data {
        Json::Object(map) => {
            let ghost es = view_entries(map@);
            proof {
                lemma_view_entries(map@);
                assert(json_data@ == JVal::Obj(es));
            }
            let out = match draw_entries(map) {
                Ok(out) => out,
                Err(e) => {
                    proof {
                        let i = choose|i: int|
                            0 <= i < map@.len() && named_faker(#[trigger] view_entries(map@)[i].1) is None;
                        assert(0 <= i < es.len() && named_faker(es[i].1) is None);
                    }
                    return Err(e);
                },
            };
            let sorted = sort_entries(out);
            proof {
                let ov = view_entries(out@);
                let so = sort_fields(ov);
                lemma_sort_fields(ov);
                assert forall|k: int| 0 <= k < so.len() implies exists|i: int|
                    0 <= i < es.len() && #[trigger] es[i].0 == (#[trigger] so[k]).0 && entry_outcome(
                        es[i].1,
                        so[k].1,
                    ) by {
                    assert(so.contains(so[k]));
                    let j = choose|j: int| 0 <= j < ov.len() && ov[j] == so[k];
                    assert(ov[j].0 == es[j].0 && entry_outcome(es[j].1, ov[j].1));
                }
                assert(dummy_output(es, ov) && view_entries(sorted@) == sort_fields(ov));
                assert(sorted_by_name(view_entries(sorted@)));
                assert(dummy_sorted(es, view_entries(sorted@)));
            }
            Ok(Json::Object(sorted))
        },
        _ => {
            let out: Vec<(String, Json)> = Vec::new();
            proof {
                lemma_view_entries(out@);
            }
            Ok(Json::Object(out))
        },
    }
}

} // verus!
