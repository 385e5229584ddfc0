use vstd::prelude::*;
use crate::fake_type::FakeElement;
use crate::generator::{is_outcome, Gen, ScalarKind};
use crate::json::Json;
use crate::lang::get_language;
use crate::provider::{draw_first_name, draw_last_name, draw_name, draw_name_with_title, draw_suffix, draw_title};

verus! {

/// A first name.
#[derive(Debug)]
pub struct FirstName {
    pub _fake_type: String,
    pub lang: String,
}

impl View for FirstName {
    type V = Gen;

    open spec fn view(&self) -> Gen {
        Gen::Scalar { scalar: ScalarKind::FirstName, lang: self.lang@ }
    }
}

impl FakeElement for FirstName {
    fn new(_fake_type: String, lang: String) -> (r: Self)
        ensures
            r._fake_type == _fake_type,
            r.lang == lang,
    {
        Self { _fake_type, lang }
    }
}

impl FirstName {
    /// Draws one value.
    pub fn fake_apply(&self) -> String {
        draw_first_name(get_language(self.lang.as_str()))
    }

    /// Draws one value as a JSON string.
    pub fn to_value(&self) -> (r: Json)
        ensures
            is_outcome(self@, r@),
    {
        Json::String(self.fake_apply())
    }
}

/// A last name.
#[derive(Debug)]
pub struct LastName {
    pub _fake_type: String,
    pub lang: String,
}

impl View for LastName {
    type V = Gen;

    open spec fn view(&self) -> Gen {
        Gen::Scalar { scalar: ScalarKind::LastName, lang: self.lang@ }
    }
}

impl FakeElement for LastName {
    fn new(_fake_type: String, lang: String) -> (r: Self)
        ensures
            r._fake_type == _fake_type,
            r.lang == lang,
    {
        Self { _fake_type, lang }
    }
}

impl LastName {
    /// Draws one value.
    pub fn fake_apply(&self) -> String {
        draw_last_name(get_language(self.lang.as_str()))
    }

    /// Draws one value as a JSON string.
    pub fn to_value(&self) -> (r: Json)
        ensures
            is_outcome(self@, r@),
    {
        Json::String(self.fake_apply())
    }
}

/// A name title.
#[derive(Debug)]
pub struct Title {
    pub _fake_type: String,
    pub lang: String,
}

impl View for Title {
    type V = Gen;

    open spec fn view(&self) -> Gen {
        Gen::Scalar { scalar: ScalarKind::Title, lang: self.lang@ }
    }
}

impl FakeElement for Title {
    fn new(_fake_type: String, lang: String) -> (r: Self)
        ensures
            r._fake_type == _fake_type,
            r.lang == lang,
    {
        Self { _fake_type, lang }
    }
}

impl Title {
    /// Draws one value.
    pub fn fake_apply(&self) -> String {
        draw_title(get_language(self.lang.as_str()))
    }

    /// Draws one value as a JSON string.
    pub fn to_value(&self) -> (r: Json)
        ensures
            is_outcome(self@, r@),
    {
        Json::String(self.fake_apply())
    }
}

/// A name suffix.
#[derive(Debug)]
pub struct Suffix {
    pub _fake_type: String,
    pub lang: String,
}

impl View for Suffix {
    type V = Gen;

    open spec fn view(&self) -> Gen {
        Gen::Scalar { scalar: ScalarKind::Suffix, lang: self.lang@ }
    }
}

impl FakeElement for Suffix {
    fn new(_fake_type: String, lang: String) -> (r: Self)
        ensures
            r._fake_type == _fake_type,
            r.lang == lang,
    {
        Self { _fake_type, lang }
    }
}

impl Suffix {
    /// Draws one value.
    pub fn fake_apply(&self) -> String {
        draw_suffix(get_language(self.lang.as_str()))
    }

    /// Draws one value as a JSON string.
    pub fn to_value(&self) -> (r: Json)
        ensures
            is_outcome(self@, r@),
    {
        Json::String(self.fake_apply())
    }
}

/// A full name.
#[derive(Debug)]
pub struct Name {
    pub _fake_type: String,
    pub lang: String,
}

impl View for Name {
    type V = Gen;

    open spec fn view(&self) -> Gen {
        Gen::Scalar { scalar: ScalarKind::Name, lang: self.lang@ }
    }
}

impl FakeElement for Name {
    fn new(_fake_type: String, lang: String) -> (r: Self)
        ensures
            r._fake_type == _fake_type,
            r.lang == lang,
    {
        Self { _fake_type, lang }
    }
}

impl Name {
    /// Draws one value.
    pub fn fake_apply(&self) -> String {
        draw_name(get_language(self.lang.as_str()))
    }

    /// Draws one value as a JSON string.
    pub fn to_value(&self) -> (r: Json)
        ensures
            is_outcome(self@, r@),
    {
        Json::String(self.fake_apply())
    }
}

/// A full name with a title.
#[derive(Debug)]
pub struct NameWithTitle {
    pub _fake_type: String,
    pub lang: String,
}

impl View for NameWithTitle {
    type V = Gen;

    open spec fn view(&self) -> Gen {
        Gen::Scalar { scalar: ScalarKind::NameWithTitle, lang: self.lang@ }
    }
}

impl FakeElement for NameWithTitle {
    fn new(_fake_type: String, lang: String) -> (r: Self)
        ensures
            r._fake_type == _fake_type,
            r.lang == lang,
    {
        Self { _fake_type, lang }
    }
}

impl NameWithTitle {
    /// Draws one value.
    pub fn fake_apply(&self) -> String {
        draw_name_with_title(get_language(self.lang.as_str()))
    }

    /// Draws one value as a JSON string.
    pub fn to_value(&self) -> (r: Json)
        ensures
            is_outcome(self@, r@),
    {
        Json::String(self.fake_apply())
    }
}

} // verus!
