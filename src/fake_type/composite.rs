use vstd::prelude::*;
use crate::element::{lemma_view_fields, sort_by_name, view_fields, FakeDefinitionElement};
use crate::generator::{is_outcome, lemma_fields_wf, sorted_by_name, wf, Gen};
use crate::laws::lemma_sort_fields;
use crate::json::{lemma_view_entries, lemma_view_items, Json};
use crate::order::lex_lt;
use crate::schema::sort_fields;

verus! {

/// A list of `count` values, each drawn afresh from one nested generator.
#[derive(Debug)]
pub struct Array {
    pub _fake_type: String,
    pub count: usize,
    pub fake_definition_element: Box<FakeDefinitionElement>,
}

impl Array {
    pub fn new(_fake_type: String, count: usize, fake_definition_element: Box<FakeDefinitionElement>) -> (r: Self)
        ensures
            r._fake_type == _fake_type,
            r.count == count,
            r.fake_definition_element == fake_definition_element,
    {
        Self { _fake_type, count, fake_definition_element }
    }

    /// Evaluates the nested generator `count` times, in order.
    #[verifier::loop_isolation(false)]
    pub fn fake_apply(&self) -> (r: Vec<Json>)
        requires
            wf(self.fake_definition_element@),
        ensures
            r@.len() == self.count,
            forall|i: int|
                0 <= i < r@.len() ==> is_outcome(self.fake_definition_element@, #[trigger] r@[i]@),
        decreases self, 1int,
    {
        let mut array: Vec<Json> = Vec::new();
        let mut i: usize = 0;
        while i < self.count
            invariant
                i <= self.count,
                array@.len() == i,
                forall|j: int|
                    0 <= j < i ==> is_outcome(self.fake_definition_element@, #[trigger] array@[j]@),
            decreases self.count - i,
        {
            let v = self.fake_definition_element.to_value();
            array.push(v);
            i = i + 1;
        }
        array
    }

    /// Evaluates the generator as a JSON array.
    pub fn to_value(&self) -> (r: Json)
        requires
            wf(self.fake_definition_element@),
        ensures
            is_outcome(
                Gen::Array { count: self.count, element: Box::new(self.fake_definition_element@) },
                r@,
            ),
        decreases self, 2int,
    {
        let items = self.fake_apply();
        proof {
            lemma_view_items(items@);
        }
        Json::Array(items)
    }
}

/// An object whose fields are drawn from named nested generators, kept in
/// ascending order of name.
#[derive(Debug)]
pub struct Mapping {
    pub _fake_type: String,
    pub map: Vec<(String, FakeDefinitionElement)>,
}

impl Mapping {
    /// A map generator; its fields are put in order of name, and of two fields
    /// with one name the later stays.
    pub fn new(_fake_type: String, map: Vec<(String, FakeDefinitionElement)>) -> (r: Self)
        ensures
            r._fake_type == _fake_type,
            view_fields(r.map@) == sort_fields(view_fields(map@)),
            sorted_by_name(view_fields(r.map@)),
    {
        proof {
            lemma_sort_fields(view_fields(map@));
        }
        Self { _fake_type, map: sort_by_name(map) }
    }

    /// Evaluates each named generator once, in the order of the fields.
    #[verifier::loop_isolation(false)]
    pub fn fake_apply(&self) -> (r: Vec<(String, Json)>)
        requires
            wf(Gen::Mapping { fields: view_fields(self.map@) }),
        ensures
            r@.len() == self.map@.len(),
            forall|i: int|
                0 <= i < r@.len() ==> (#[trigger] r@[i]).0@ == self.map@[i].0@ && is_outcome(
                    self.map@[i].1@,
                    r@[i].1@,
                ),
            forall|i: int, j: int| 0 <= i < j < r@.len() ==> lex_lt(#[trigger] r@[i].0@, #[trigger] r@[j].0@),
        decreases self, 1int,
    {
        proof {
            lemma_view_fields(self.map@);
        }
        let ghost fields = view_fields(self.map@);
        proof {
            lemma_fields_wf(fields);
        }
        let mut out: Vec<(String, Json)> = Vec::new();
        let mut i: usize = 0;
        while i < self.map.len()
            invariant
                i <= self.map@.len(),
                out@.len() == i,
                forall|j: int|
                    0 <= j < i ==> (#[trigger] out@[j]).0@ == self.map@[j].0@ && is_outcome(
                        self.map@[j].1@,
                        out@[j].1@,
                    ),
            decreases self.map.len() - i,
        {
            assert(wf(fields[i as int].1));
            proof {
                assert(decreases_to!(self.map@ => self.map@[i as int]));
            }
            let v = self.map[i].1.to_value();
            out.push((self.map[i].0.clone(), v));
            i = i + 1;
        }
        assert forall|a: int, b: int| 0 <= a < b < out@.len() implies lex_lt(
            #[trigger] out@[a].0@,
            #[trigger] out@[b].0@,
        ) by {
            assert(out@[a].0@ == fields[a].0 && out@[b].0@ == fields[b].0);
        }
        out
    }

    /// Evaluates the generator as a JSON object.
    pub fn to_value(&self) -> (r: Json)
        requires
            wf(Gen::Mapping { fields: view_fields(self.map@) }),
        ensures
            is_outcome(Gen::Mapping { fields: view_fields(self.map@) }, r@),
        decreases self, 2int,
    {
        let entries = self.fake_apply();
        proof {
            lemma_view_entries(entries@);
            lemma_view_fields(self.map@);
        }
        Json::Object(entries)
    }
}

/// A fixed value, returned as it was given.
#[derive(Debug)]
pub struct Constant {
    pub _fake_type: String,
    pub value: Json,
}

impl Constant {
    pub fn new(_fake_type: String, value: Json) -> (r: Self)
        ensures
            r._fake_type == _fake_type,
            r.value == value,
    {
        Self { _fake_type, value }
    }

    /// The stored value.
    pub fn fake_apply(&self) -> (r: Json)
        ensures
            r@ == self.value@,
    {
        self.value.deep_copy()
    }

    /// The stored value.
    pub fn to_value(&self) -> (r: Json)
        ensures
            r@ == self.value@,
    {
        self.fake_apply()
    }
}

} // verus!
