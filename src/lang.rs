use vstd::prelude::*;

verus! {

/// The locales whose data the generators draw from.
#[derive(Clone, Copy, PartialEq, Eq, Debug, Structural)]
pub enum Language {
    JaJp,
    En,
    ArSa,
    FrFr,
    PtBr,
    ZhCn,
    ZhTw,
}

/// The locale named by a code; an unknown code falls back to English.
pub open spec fn language_of(code: Seq<char>) -> Language {
    if code == "JA_JP"@ {
        Language::JaJp
    } else if code == "EN"@ {
        Language::En
    } else if code == "AR_SA"@ {
        Language::ArSa
    } else if code == "FR_FR"@ {
        Language::FrFr
    } else if code == "PT_BR"@ {
        Language::PtBr
    } else if code == "ZH_CN"@ {
        Language::ZhCn
    } else if code == "ZH_TW"@ {
        Language::ZhTw
    } else {
        Language::En
    }
}

/// Resolves a locale code, falling back to English for unknown codes.
pub fn get_language(lang_string: &str) -> (r: Language)
    ensures
        r == language_of(lang_string@),
{
    if crate::json::str_eq(lang_string, "JA_JP") {
        Language::JaJp
    } else if crate::json::str_eq(lang_string, "EN") {
        Language::En
    } else if crate::json::str_eq(lang_string, "AR_SA") {
        Language::ArSa
    } else if crate::json::str_eq(lang_string, "FR_FR") {
        Language::FrFr
    } else if crate::json::str_eq(lang_string, "PT_BR") {
        Language::PtBr
    } else if crate::json::str_eq(lang_string, "ZH_CN") {
        Language::ZhCn
    } else if crate::json::str_eq(lang_string, "ZH_TW") {
        Language::ZhTw
    } else {
        Language::En
    }
}

} // verus!
