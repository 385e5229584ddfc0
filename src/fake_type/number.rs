use vstd::prelude::*;
use crate::fake_type::{FakeElement, FakeWithFormatElement};
use crate::generator::{is_outcome, Gen, ScalarKind};
use crate::json::{Json, Number};
use crate::lang::get_language;
use crate::provider::{draw_digit, draw_number_with_format, numerified};

verus! {

/// A single digit, 0 to 9.
#[derive(Debug)]
pub struct Digit {
    pub _fake_type: String,
    pub lang: String,
}

impl View for Digit {
    type V = Gen;

    open spec fn view(&self) -> Gen {
        Gen::Scalar { scalar: ScalarKind::Digit, lang: self.lang@ }
    }
}

impl FakeElement for Digit {
    fn new(_fake_type: String, lang: String) -> (r: Self)
        ensures
            r._fake_type == _fake_type,
            r.lang == lang,
    {
        Self { _fake_type, lang }
    }
}

impl Digit {
    /// Draws one digit.
    pub fn fake_apply(&self) -> (r: u8)
        ensures
            r <= 9,
    {
        draw_digit(get_language(self.lang.as_str()))
    }

    /// Draws one digit as a JSON number.
    pub fn to_value(&self) -> (r: Json)
        ensures
            is_outcome(self@, r@),
    {
        Json::Number(Number::PosInt(self.fake_apply() as u64))
    }
}

/// A number written in a format: `#` a digit, `^` a non-zero digit.
#[derive(Debug)]
pub struct NumberWithFormat {
    pub _fake_type: String,
    pub lang: String,
    pub format: String,
}

impl View for NumberWithFormat {
    type V = Gen;

    open spec fn view(&self) -> Gen {
        Gen::Formatted { lang: self.lang@, format: self.format@ }
    }
}

impl FakeWithFormatElement for NumberWithFormat {
    fn new(_fake_type: String, lang: String, format: String) -> (r: Self)
        ensures
            r._fake_type == _fake_type,
            r.lang == lang,
            r.format == format,
    {
        Self { _fake_type, lang, format }
    }
}

impl NumberWithFormat {
    /// Fills the format with random digits.
    pub fn fake_apply(&self) -> (r: String)
        ensures
            numerified(self.format@, r@),
    {
        draw_number_with_format(get_language(self.lang.as_str()), self.format.as_str())
    }

    /// Fills the format as a JSON string.
    pub fn to_value(&self) -> (r: Json)
        ensures
            is_outcome(self@, r@),
    {
        Json::String(self.fake_apply())
    }
}

} // verus!
