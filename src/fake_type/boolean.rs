use vstd::prelude::*;
use crate::fake_type::FakeWithRatioElement;
use crate::generator::{is_outcome, Gen};
use crate::json::Json;
use crate::lang::get_language;
use crate::provider::draw_boolean;

verus! {

/// A boolean that is true with a chance of `ratio` percent.
#[derive(Debug)]
pub struct Boolean {
    pub _fake_type: String,
    pub lang: String,
    pub ratio: u8,
}

impl View for Boolean {
    type V = Gen;

    open spec fn view(&self) -> Gen {
        Gen::Ratio { lang: self.lang@, ratio: self.ratio }
    }
}

impl FakeWithRatioElement for Boolean {
    fn new(_fake_type: String, lang: String, ratio: u8) -> (r: Self)
        ensures
            r._fake_type == _fake_type,
            r.lang == lang,
            r.ratio == ratio,
    {
        Self { _fake_type, lang, ratio }
    }
}

impl Boolean {
    /// Draws one boolean: never true at ratio 0, always true from ratio 100.
    pub fn fake_apply(&self) -> (r: bool)
        ensures
            self.ratio == 0 ==> !r,
            self.ratio >= 100 ==> r,
    {
        draw_boolean(get_language(self.lang.as_str()), self.ratio)
    }

    /// Draws one boolean as a JSON boolean.
    pub fn to_value(&self) -> (r: Json)
        ensures
            is_outcome(self@, r@),
    {
        Json::Bool(self.fake_apply())
    }
}

} // verus!
