use vstd::prelude::*;
use crate::error::{CompileError, CompileErrorV};
use crate::fake_type::FakeWithRangeElement;
use crate::generator::{is_outcome, Gen, RangedKind, ScalarKind};
use crate::json::{string_array, Json};
use crate::lang::get_language;
use crate::provider::{
    draw_paragraph, draw_paragraphs, draw_sentence, draw_sentences, draw_word, draw_words,
    is_paragraph, is_sentence,
};

verus! {

/// A single lorem word.
#[derive(Debug)]
pub struct Word {
    pub _fake_type: String,
    pub lang: String,
}

impl View for Word {
    type V = Gen;

    open spec fn view(&self) -> Gen {
        Gen::Scalar { scalar: ScalarKind::Word, lang: self.lang@ }
    }
}

impl Word {
    /// A generator of this kind for the locale code `lang`.
    pub fn new(_fake_type: String, lang: String) -> (r: Self)
        ensures
            r._fake_type == _fake_type,
            r.lang == lang,
    {
        Self { _fake_type, lang }
    }

    /// Draws one word.
    pub fn fake_apply(&self) -> (r: String)
        ensures
            r@.len() > 0,
    {
        draw_word(get_language(self.lang.as_str()))
    }

    /// Draws one word as a JSON string.
    pub fn to_value(&self) -> (r: Json)
        ensures
            is_outcome(self@, r@),
    {
        Json::String(self.fake_apply())
    }
}

/// A list of lorem words.
#[derive(Debug)]
pub struct Words {
    pub _fake_type: String,
    pub lang: String,
    pub min: usize,
    pub max: usize,
}

impl View for Words {
    type V = Gen;

    open spec fn view(&self) -> Gen {
        Gen::Ranged { ranged: RangedKind::Words, lang: self.lang@, min: self.min, max: self.max }
    }
}

impl FakeWithRangeElement for Words {
    fn new(_fake_type: String, lang: String, min: usize, max: usize) -> (r: Result<Self, CompileError>)
        ensures
            min < max <==> r is Ok,
            r matches Ok(g) ==> g._fake_type == _fake_type && g.lang == lang && g.min == min
                && g.max == max,
            r matches Err(e) ==> e@ == CompileErrorV::InvalidRange(min, max),
    {
        if min >= max {
            Err(CompileError::InvalidRange(min, max))
        } else {
            Ok(Self { _fake_type, lang, min, max })
        }
    }
}

impl Words {
    /// Draws a list whose length lies in `min..max`.
    pub fn fake_apply(&self) -> (r: Vec<String>)
        requires
            self.min < self.max,
        ensures
            self.min <= r@.len() < self.max,
            forall|i: int| 0 <= i < r@.len() ==> (#[trigger] r@[i])@.len() > 0,
    {
        draw_words(get_language(self.lang.as_str()), self.min, self.max)
    }

    /// Draws a list as a JSON array of strings.
    pub fn to_value(&self) -> (r: Json)
        requires
            self.min < self.max,
        ensures
            is_outcome(self@, r@),
    {
        string_array(self.fake_apply())
    }
}

/// One lorem sentence: `min..max` words and a full stop.
#[derive(Debug)]
pub struct Sentence {
    pub _fake_type: String,
    pub lang: String,
    pub min: usize,
    pub max: usize,
}

impl View for Sentence {
    type V = Gen;

    open spec fn view(&self) -> Gen {
        Gen::Ranged { ranged: RangedKind::Sentence, lang: self.lang@, min: self.min, max: self.max }
    }
}

impl FakeWithRangeElement for Sentence {
    fn new(_fake_type: String, lang: String, min: usize, max: usize) -> (r: Result<Self, CompileError>)
        ensures
            min < max <==> r is Ok,
            r matches Ok(g) ==> g._fake_type == _fake_type && g.lang == lang && g.min == min
                && g.max == max,
            r matches Err(e) ==> e@ == CompileErrorV::InvalidRange(min, max),
    {
        if min >= max {
            Err(CompileError::InvalidRange(min, max))
        } else {
            Ok(Self { _fake_type, lang, min, max })
        }
    }
}

impl Sentence {
    /// Draws one text whose unit count is drawn from `min..max`.
    pub fn fake_apply(&self) -> (r: String)
        requires
            self.min < self.max,
        ensures
            is_sentence(r@, self.min as int, self.max as int),
    {
        draw_sentence(get_language(self.lang.as_str()), self.min, self.max)
    }

    /// Draws one text as a JSON string.
    pub fn to_value(&self) -> (r: Json)
        requires
            self.min < self.max,
        ensures
            is_outcome(self@, r@),
    {
        Json::String(self.fake_apply())
    }
}

/// A list of lorem sentences.
#[derive(Debug)]
pub struct Sentences {
    pub _fake_type: String,
    pub lang: String,
    pub min: usize,
    pub max: usize,
}

impl View for Sentences {
    type V = Gen;

    open spec fn view(&self) -> Gen {
        Gen::Ranged { ranged: RangedKind::Sentences, lang: self.lang@, min: self.min, max: self.max }
    }
}

impl FakeWithRangeElement for Sentences {
    fn new(_fake_type: String, lang: String, min: usize, max: usize) -> (r: Result<Self, CompileError>)
        ensures
            min < max <==> r is Ok,
            r matches Ok(g) ==> g._fake_type == _fake_type && g.lang == lang && g.min == min
                && g.max == max,
            r matches Err(e) ==> e@ == CompileErrorV::InvalidRange(min, max),
    {
        if min >= max {
            Err(CompileError::InvalidRange(min, max))
        } else {
            Ok(Self { _fake_type, lang, min, max })
        }
    }
}

impl Sentences {
    /// Draws a list whose length lies in `min..max`.
    pub fn fake_apply(&self) -> (r: Vec<String>)
        requires
            self.min < self.max,
        ensures
            self.min <= r@.len() < self.max,
            forall|i: int| 0 <= i < r@.len() ==> is_sentence((#[trigger] r@[i])@, 4, 10),
    {
        draw_sentences(get_language(self.lang.as_str()), self.min, self.max)
    }

    /// Draws a list as a JSON array of strings.
    pub fn to_value(&self) -> (r: Json)
        requires
            self.min < self.max,
        ensures
            is_outcome(self@, r@),
    {
        string_array(self.fake_apply())
    }
}

/// One lorem paragraph: `min..max` sentences, one per line.
#[derive(Debug)]
pub struct Paragraph {
    pub _fake_type: String,
    pub lang: String,
    pub min: usize,
    pub max: usize,
}

impl View for Paragraph {
    type V = Gen;

    open spec fn view(&self) -> Gen {
        Gen::Ranged { ranged: RangedKind::Paragraph, lang: self.lang@, min: self.min, max: self.max }
    }
}

impl FakeWithRangeElement for Paragraph {
    fn new(_fake_type: String, lang: String, min: usize, max: usize) -> (r: Result<Self, CompileError>)
        ensures
            min < max <==> r is Ok,
            r matches Ok(g) ==> g._fake_type == _fake_type && g.lang == lang && g.min == min
                && g.max == max,
            r matches Err(e) ==> e@ == CompileErrorV::InvalidRange(min, max),
    {
        if min >= max {
            Err(CompileError::InvalidRange(min, max))
        } else {
            Ok(Self { _fake_type, lang, min, max })
        }
    }
}

impl Paragraph {
    /// Draws one text whose unit count is drawn from `min..max`.
    pub fn fake_apply(&self) -> (r: String)
        requires
            self.min < self.max,
        ensures
            is_paragraph(r@, self.min as int, self.max as int),
    {
        draw_paragraph(get_language(self.lang.as_str()), self.min, self.max)
    }

    /// Draws one text as a JSON string.
    pub fn to_value(&self) -> (r: Json)
        requires
            self.min < self.max,
        ensures
            is_outcome(self@, r@),
    {
        Json::String(self.fake_apply())
    }
}

/// A list of lorem paragraphs.
#[derive(Debug)]
pub struct Paragraphs {
    pub _fake_type: String,
    pub lang: String,
    pub min: usize,
    pub max: usize,
}

impl View for Paragraphs {
    type V = Gen;

    open spec fn view(&self) -> Gen {
        Gen::Ranged { ranged: RangedKind::Paragraphs, lang: self.lang@, min: self.min, max: self.max }
    }
}

impl FakeWithRangeElement for Paragraphs {
    fn new(_fake_type: String, lang: String, min: usize, max: usize) -> (r: Result<Self, CompileError>)
        ensures
            min < max <==> r is Ok,
            r matches Ok(g) ==> g._fake_type == _fake_type && g.lang == lang && g.min == min
                && g.max == max,
            r matches Err(e) ==> e@ == CompileErrorV::InvalidRange(min, max),
    {
        if min >= max {
            Err(CompileError::InvalidRange(min, max))
        } else {
            Ok(Self { _fake_type, lang, min, max })
        }
    }
}

impl Paragraphs {
    /// Draws a list whose length lies in `min..max`.
    pub fn fake_apply(&self) -> (r: Vec<String>)
        requires
            self.min < self.max,
        ensures
            self.min <= r@.len() < self.max,
            forall|i: int| 0 <= i < r@.len() ==> is_paragraph((#[trigger] r@[i])@, 4, 7),
    {
        draw_paragraphs(get_language(self.lang.as_str()), self.min, self.max)
    }

    /// Draws a list as a JSON array of strings.
    pub fn to_value(&self) -> (r: Json)
        requires
            self.min < self.max,
        ensures
            is_outcome(self@, r@),
    {
        string_array(self.fake_apply())
    }
}

} // verus!
