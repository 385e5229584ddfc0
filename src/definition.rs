use vstd::prelude::*;
use crate::element::{compile_entries, lemma_view_fields, sort_by_name, view_fields, FakeDefinitionElement};
use crate::error::{CompileError, CompileErrorV};
use crate::generator::{fields_wf, is_outcome, lemma_fields_wf, sorted_by_name, wf, Gen};
use crate::json::{lemma_view_entries, lemma_view_items, view_entries, JVal, Json};
use crate::order::lex_lt;
use crate::laws::lemma_definition_wf;
use crate::schema::{compile_definition, Reserved};

verus! {

/// A compiled definition: named generators in strictly ascending order of name.
#[derive(Debug)]
pub struct FakeDefinition(pub Vec<(String, FakeDefinitionElement)>);

impl View for FakeDefinition {
    type V = Seq<(Seq<char>, Gen)>;

    open spec fn view(&self) -> Seq<(Seq<char>, Gen)> {
        view_fields(self.0@)
    }
}

/// The mathematical value of a definition compile result.
pub open spec fn definition_result_view(r: Result<FakeDefinition, CompileError>) -> Result<
    Seq<(Seq<char>, Gen)>,
    CompileErrorV,
> {
    match r {
        Ok(d) => Ok(d@),
        Err(e) => Err(e@),
    }
}

impl FakeDefinition {
    /// Compiles a definition: the root must be an object, each of its entries a
    /// schema node; the first error anywhere aborts.
    pub fn from_json(fake_definition_json: &Json) -> (r: Result<Self, CompileError>)
        ensures
            definition_result_view(r) == compile_definition(fake_definition_json@),
            r matches Ok(d) ==> fields_wf(d@) && sorted_by_name(d@),
    {
        proof {
            lemma_definition_wf(fake_definition_json@);
        }
        match fake_definition_json {
            Json::Object(entries) => match compile_entries(entries, Reserved::Nothing) {
                Ok(kids) => Ok(FakeDefinition(sort_by_name(kids))),
                Err(e) => Err(e),
            },
            Json::Array(_) => Err(CompileError::RootIsArray),
            _ => Err(CompileError::StructuralError),
        }
    }

    /// Evaluates every named generator once, into an object whose keys follow
    /// the order of the fields.
    #[verifier::loop_isolation(false)]
    pub fn to_value(&self) -> (r: Json)
        requires
            fields_wf(self@),
            sorted_by_name(self@),
        ensures
            is_outcome(Gen::Mapping { fields: self@ }, r@),
            r@ matches JVal::Obj(entries) && sorted_by_name(entries),
    {
        proof {
            lemma_view_fields(self.0@);
            lemma_fields_wf(self@);
        }
        let mut map: Vec<(String, Json)> = Vec::new();
        let mut i: usize = 0;
        while i < self.0.len()
            invariant
                i <= self.0@.len(),
                map@.len() == i,
                forall|j: int|
                    0 <= j < i ==> (#[trigger] map@[j]).0@ == self.0@[j].0@ && is_outcome(
                        self.0@[j].1@,
                        map@[j].1@,
                    ),
            decreases self.0.len() - i,
        {
            assert(wf(self@[i as int].1));
            let v = self.0[i].1.to_value();
            map.push((self.0[i].0.clone(), v));
            i = i + 1;
        }
        proof {
            lemma_view_entries(map@);
            let es = view_entries(map@);
            assert forall|a: int, b: int| 0 <= a < b < es.len() implies lex_lt(
                #[trigger] es[a].0,
                #[trigger] es[b].0,
            ) by {
                assert(es[a].0 == self@[a].0 && es[b].0 == self@[b].0);
            }
        }
        Json::Object(map)
    }
}

/// What the repeat driver may emit for a definition compiled to `fields`: one
/// object for a count of 1, else an array of `count` objects.
pub open spec fn is_output(fields: Seq<(Seq<char>, Gen)>, count: usize, v: JVal) -> bool {
    if count == 1 {
        is_outcome(Gen::Mapping { fields }, v)
    } else {
        match v {
            JVal::Arr(items) => items.len() == count && forall|i: int|
                0 <= i < items.len() ==> is_outcome(Gen::Mapping { fields }, #[trigger] items[i]),
            _ => false,
        }
    }
}

/// Compiles a definition once and evaluates it `count` times, each time with
/// fresh draws: a single object for a count of 1, else an array of `count`
/// objects.
#[verifier::loop_isolation(false)]
pub fn output_value(fake_definition_json: &Json, count: usize) -> (r: Result<Json, CompileError>)
    ensures
        match r {
            Ok(v) => compile_definition(fake_definition_json@) matches Ok(fields) && is_output(
                fields,
                count,
                v@,
            ),
            Err(e) => compile_definition(fake_definition_json@) == Err::<Seq<(Seq<char>, Gen)>, _>(
                e@,
            ),
        },
{
    let definition = match FakeDefinition::from_json(fake_definition_json) {
        Ok(d) => d,
        Err(e) => return Err(e),
    };
    if count == 1 {
        return Ok(definition.to_value());
    }
    let mut values: Vec<Json> = Vec::new();
    let mut i: usize = 0;
    while i < count
        invariant
            i <= count,
            values@.len() == i,
            forall|j: int|
                0 <= j < i ==> is_outcome(Gen::Mapping { fields: definition@ }, #[trigger] values@[j]@),
        decreases count - i,
    {
        values.push(definition.to_value());
        i = i + 1;
    }
    proof {
        lemma_view_items(values@);
    }
    Ok(Json::Array(values))
}

} // verus!
