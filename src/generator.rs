use vstd::prelude::*;
use crate::json::{JVal, NumberV};
use crate::json::str_eq;
use crate::order::lex_lt;
use crate::provider::{is_paragraph, is_sentence, numerified};

verus! {

/// Generators that take only a locale.
#[derive(Clone, Copy, PartialEq, Eq, Debug, Structural)]
pub enum ScalarKind {
    Word,
    FirstName,
    LastName,
    Title,
    Suffix,
    Name,
    NameWithTitle,
    Digit,
    FreeEmailProvider,
    DomainSuffix,
    FreeEmail,
    SafeEmail,
    Username,
    IPv4,
    IPv6,
    IP,
    MACAddress,
    UserAgent,
}

/// Generators that take a locale and a half-open range `min..max`.
#[derive(Clone, Copy, PartialEq, Eq, Debug, Structural)]
pub enum RangedKind {
    Words,
    Sentence,
    Sentences,
    Paragraph,
    Paragraphs,
    Password,
}

/// The parameter shape that a tag calls for.
#[derive(Clone, Copy, PartialEq, Eq, Debug, Structural)]
pub enum Kind {
    Scalar(ScalarKind),
    Ranged(RangedKind),
    Ratio,
    Formatted,
    Array,
    Mapping,
    Constant,
}

/// A compiled generator, as a mathematical value.
pub ghost enum Gen {
    Scalar { scalar: ScalarKind, lang: Seq<char> },
    Ranged { ranged: RangedKind, lang: Seq<char>, min: usize, max: usize },
    Ratio { lang: Seq<char>, ratio: u8 },
    Formatted { lang: Seq<char>, format: Seq<char> },
    Array { count: usize, element: Box<Gen> },
    Mapping { fields: Seq<(Seq<char>, Gen)> },
    Constant { value: JVal },
}

/// The tag registry: which shape each `fake_type` name calls for.
pub open spec fn registry(tag: Seq<char>) -> Option<Kind> {
    if tag == "word"@ {
        Some(Kind::Scalar(ScalarKind::Word))
    } else if tag == "words"@ {
        Some(Kind::Ranged(RangedKind::Words))
    } else if tag == "sentence"@ {
        Some(Kind::Ranged(RangedKind::Sentence))
    } else if tag == "sentences"@ {
        Some(Kind::Ranged(RangedKind::Sentences))
    } else if tag == "paragraph"@ {
        Some(Kind::Ranged(RangedKind::Paragraph))
    } else if tag == "paragraphs"@ {
        Some(Kind::Ranged(RangedKind::Paragraphs))
    } else if tag == "first_name"@ {
        Some(Kind::Scalar(ScalarKind::FirstName))
    } else if tag == "last_name"@ {
        Some(Kind::Scalar(ScalarKind::LastName))
    } else if tag == "title"@ {
        Some(Kind::Scalar(ScalarKind::Title))
    } else if tag == "suffix"@ {
        Some(Kind::Scalar(ScalarKind::Suffix))
    } else if tag == "name"@ {
        Some(Kind::Scalar(ScalarKind::Name))
    } else if tag == "name_with_title"@ {
        Some(Kind::Scalar(ScalarKind::NameWithTitle))
    } else if tag == "digit"@ {
        Some(Kind::Scalar(ScalarKind::Digit))
    } else if tag == "number_with_format"@ {
        Some(Kind::Formatted)
    } else if tag == "boolean"@ {
        Some(Kind::Ratio)
    } else if tag == "free_email_provider"@ {
        Some(Kind::Scalar(ScalarKind::FreeEmailProvider))
    } else if tag == "domain_suffix"@ {
        Some(Kind::Scalar(ScalarKind::DomainSuffix))
    } else if tag == "free_email"@ {
        Some(Kind::Scalar(ScalarKind::FreeEmail))
    } else if tag == "safe_email"@ {
        Some(Kind::Scalar(ScalarKind::SafeEmail))
    } else if tag == "username"@ {
        Some(Kind::Scalar(ScalarKind::Username))
    } else if tag == "password"@ {
        Some(Kind::Ranged(RangedKind::Password))
    } else if tag == "ip_v4"@ {
        Some(Kind::Scalar(ScalarKind::IPv4))
    } else if tag == "ip_v6"@ {
        Some(Kind::Scalar(ScalarKind::IPv6))
    } else if tag == "ip"@ {
        Some(Kind::Scalar(ScalarKind::IP))
    } else if tag == "mac_address"@ {
        Some(Kind::Scalar(ScalarKind::MACAddress))
    } else if tag == "user_agent"@ {
        Some(Kind::Scalar(ScalarKind::UserAgent))
    } else if tag == "array"@ {
        Some(Kind::Array)
    } else if tag == "map"@ {
        Some(Kind::Mapping)
    } else if tag == "constant"@ {
        Some(Kind::Constant)
    } else {
        None
    }
}

/// Looks a tag up in the registry.
pub fn lookup_kind(tag: &str) -> (r: Option<Kind>)
    ensures
        r == registry(tag@),
{
    if str_eq(tag, "word") {
        Some(Kind::Scalar(ScalarKind::Word))
    } else if str_eq(tag, "words") {
        Some(Kind::Ranged(RangedKind::Words))
    } else if str_eq(tag, "sentence") {
        Some(Kind::Ranged(RangedKind::Sentence))
    } else if str_eq(tag, "sentences") {
        Some(Kind::Ranged(RangedKind::Sentences))
    } else if str_eq(tag, "paragraph") {
        Some(Kind::Ranged(RangedKind::Paragraph))
    } else if str_eq(tag, "paragraphs") {
        Some(Kind::Ranged(RangedKind::Paragraphs))
    } else if str_eq(tag, "first_name") {
        Some(Kind::Scalar(ScalarKind::FirstName))
    } else if str_eq(tag, "last_name") {
        Some(Kind::Scalar(ScalarKind::LastName))
    } else if str_eq(tag, "title") {
        Some(Kind::Scalar(ScalarKind::Title))
    } else if str_eq(tag, "suffix") {
        Some(Kind::Scalar(ScalarKind::Suffix))
    } else if str_eq(tag, "name") {
        Some(Kind::Scalar(ScalarKind::Name))
    } else if str_eq(tag, "name_with_title") {
        Some(Kind::Scalar(ScalarKind::NameWithTitle))
    } else if str_eq(tag, "digit") {
        Some(Kind::Scalar(ScalarKind::Digit))
    } else if str_eq(tag, "number_with_format") {
        Some(Kind::Formatted)
    } else if str_eq(tag, "boolean") {
        Some(Kind::Ratio)
    } else if str_eq(tag, "free_email_provider") {
        Some(Kind::Scalar(ScalarKind::FreeEmailProvider))
    } else if str_eq(tag, "domain_suffix") {
        Some(Kind::Scalar(ScalarKind::DomainSuffix))
    } else if str_eq(tag, "free_email") {
        Some(Kind::Scalar(ScalarKind::FreeEmail))
    } else if str_eq(tag, "safe_email") {
        Some(Kind::Scalar(ScalarKind::SafeEmail))
    } else if str_eq(tag, "username") {
        Some(Kind::Scalar(ScalarKind::Username))
    } else if str_eq(tag, "password") {
        Some(Kind::Ranged(RangedKind::Password))
    } else if str_eq(tag, "ip_v4") {
        Some(Kind::Scalar(ScalarKind::IPv4))
    } else if str_eq(tag, "ip_v6") {
        Some(Kind::Scalar(ScalarKind::IPv6))
    } else if str_eq(tag, "ip") {
        Some(Kind::Scalar(ScalarKind::IP))
    } else if str_eq(tag, "mac_address") {
        Some(Kind::Scalar(ScalarKind::MACAddress))
    } else if str_eq(tag, "user_agent") {
        Some(Kind::Scalar(ScalarKind::UserAgent))
    } else if str_eq(tag, "array") {
        Some(Kind::Array)
    } else if str_eq(tag, "map") {
        Some(Kind::Mapping)
    } else if str_eq(tag, "constant") {
        Some(Kind::Constant)
    } else {
        None
    }
}

/// A generator that can be evaluated: every range non-empty.
pub open spec fn wf(g: Gen) -> bool
    decreases g,
{
    match g {
        Gen::Ranged { min, max, .. } => min < max,
        Gen::Array { element, .. } => wf(*element),
        Gen::Mapping { fields } => fields_wf(fields) && sorted_by_name(fields),
        _ => true,
    }
}

/// Names in strictly ascending order.
pub open spec fn sorted_by_name<V>(fields: Seq<(Seq<char>, V)>) -> bool {
    forall|i: int, j: int| 0 <= i < j < fields.len() ==> lex_lt(#[trigger] fields[i].0, #[trigger] fields[j].0)
}

/// Every named generator can be evaluated.
pub open spec fn fields_wf(fields: Seq<(Seq<char>, Gen)>) -> bool
    decreases fields,
{
    if fields.len() == 0 {
        true
    } else {
        fields_wf(fields.subrange(0, fields.len() - 1)) && wf(fields[fields.len() - 1].1)
    }
}

/// `fields_wf` holds exactly when every field can be evaluated.
pub proof fn lemma_fields_wf(fields: Seq<(Seq<char>, Gen)>)
    ensures
        fields_wf(fields) <==> forall|i: int| 0 <= i < fields.len() ==> #[trigger] wf(fields[i].1),
    decreases fields.len(),
{
    if fields.len() > 0 {
        let pre = fields.subrange(0, fields.len() - 1);
        lemma_fields_wf(pre);
        assert(forall|i: int| 0 <= i < pre.len() ==> pre[i] == fields[i]);
        if fields_wf(fields) {
            assert forall|i: int| 0 <= i < fields.len() implies #[trigger] wf(fields[i].1) by {
                if i < pre.len() {
                    assert(wf(pre[i].1));
                }
            }
        }
        if forall|i: int| 0 <= i < fields.len() ==> #[trigger] wf(fields[i].1) {
            assert forall|i: int| 0 <= i < pre.len() implies #[trigger] wf(pre[i].1) by {
                assert(wf(fields[i].1));
            }
            assert(wf(fields[fields.len() - 1].1));
        }
    }
}

/// What evaluating a single-value generator may give.
pub open spec fn scalar_outcome(kind: ScalarKind, v: JVal) -> bool {
    match kind {
        ScalarKind::Digit => match v {
            JVal::Num(NumberV::PosInt(d)) => d <= 9,
            _ => false,
        },
        ScalarKind::Word => match v {
            JVal::Str(s) => s.len() > 0,
            _ => false,
        },
        _ => v is Str,
    }
}

/// What one item of a drawn list may be: a non-empty word, a sentence of 4 to
/// 9 words, or a paragraph of 4 to 6 sentences.
pub open spec fn list_item(kind: RangedKind, v: JVal) -> bool {
    match v {
        JVal::Str(s) => match kind {
            RangedKind::Words => s.len() > 0,
            RangedKind::Sentences => is_sentence(s, 4, 10),
            RangedKind::Paragraphs => is_paragraph(s, 4, 7),
            _ => false,
        },
        _ => false,
    }
}

/// What evaluating a ranged generator may give: the unit count (list items,
/// password characters, words of a sentence, sentences of a paragraph) lies in
/// `min..max`.
pub open spec fn ranged_outcome(kind: RangedKind, min: usize, max: usize, v: JVal) -> bool {
    match kind {
        RangedKind::Words | RangedKind::Sentences | RangedKind::Paragraphs => match v {
            JVal::Arr(items) => min <= items.len() < max && forall|i: int|
                0 <= i < items.len() ==> list_item(kind, #[trigger] items[i]),
            _ => false,
        },
        RangedKind::Password => match v {
            JVal::Str(s) => min <= s.len() < max,
            _ => false,
        },
        RangedKind::Sentence => match v {
            JVal::Str(s) => is_sentence(s, min as int, max as int),
            _ => false,
        },
        RangedKind::Paragraph => match v {
            JVal::Str(s) => is_paragraph(s, min as int, max as int),
            _ => false,
        },
    }
}

/// What evaluating a boolean generator may give.
pub open spec fn ratio_outcome(ratio: u8, v: JVal) -> bool {
    match v {
        JVal::Bool(b) => (ratio == 0 ==> !b) && (ratio >= 100 ==> b),
        _ => false,
    }
}

/// Whether `v` is one possible result of evaluating `g`.
pub open spec fn is_outcome(g: Gen, v: JVal) -> bool
    decreases g,
{
    match g {
        Gen::Scalar { scalar, .. } => scalar_outcome(scalar, v),
        Gen::Ranged { ranged, min, max, .. } => ranged_outcome(ranged, min, max, v),
        Gen::Ratio { ratio, .. } => ratio_outcome(ratio, v),
        Gen::Formatted { format, .. } => match v {
            JVal::Str(s) => numerified(format, s),
            _ => false,
        },
        Gen::Array { count, element } => match v {
            JVal::Arr(items) => items.len() == count && forall|i: int|
                0 <= i < items.len() ==> is_outcome(*element, #[trigger] items[i]),
            _ => false,
        },
        Gen::Mapping { fields } => match v {
            JVal::Obj(entries) => entries.len() == fields.len() && forall|i: int|
                0 <= i < entries.len() ==> (#[trigger] entries[i]).0 == fields[i].0
                    && is_outcome(fields[i].1, entries[i].1),
            _ => false,
        },
        Gen::Constant { value } => v == value,
    }
}

} // verus!
