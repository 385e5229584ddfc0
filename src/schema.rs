use vstd::prelude::*;
use crate::error::CompileErrorV;
use crate::generator::{registry, Gen, Kind, RangedKind, ScalarKind};
use crate::json::{get, uint_value, JVal};
use crate::order::lex_lt;

verus! {

/// Which keys of a schema object are not nested generators.
#[derive(Clone, Copy, PartialEq, Eq, Debug, Structural)]
pub enum Reserved {
    /// Every key names a nested generator (the top level of a definition).
    Nothing,
    /// `fake_type` is reserved (map nodes).
    Tag,
    /// `fake_type` and `count` are reserved (array nodes).
    TagAndCount,
}

pub open spec fn is_reserved(key: Seq<char>, reserved: Reserved) -> bool {
    match reserved {
        Reserved::Nothing => false,
        Reserved::Tag => key == "fake_type"@,
        Reserved::TagAndCount => key == "fake_type"@ || key == "count"@,
    }
}

/// A string field of a node with tag `tag`.
pub open spec fn str_field(entries: Seq<(Seq<char>, JVal)>, tag: Seq<char>, field: Seq<char>) -> Result<
    Seq<char>,
    CompileErrorV,
> {
    match get(entries, field) {
        None => Err(CompileErrorV::MissingField(tag, field)),
        Some(JVal::Str(s)) => Ok(s),
        Some(_) => Err(CompileErrorV::TypeMismatch(tag, field)),
    }
}

/// A non-negative integer field of a node with tag `tag`.
pub open spec fn uint_field(entries: Seq<(Seq<char>, JVal)>, tag: Seq<char>, field: Seq<char>) -> Result<
    u64,
    CompileErrorV,
> {
    match get(entries, field) {
        None => Err(CompileErrorV::MissingField(tag, field)),
        Some(JVal::Num(n)) => match uint_value(n) {
            Some(u) => Ok(u),
            None => Err(CompileErrorV::TypeMismatch(tag, field)),
        },
        Some(_) => Err(CompileErrorV::TypeMismatch(tag, field)),
    }
}

/// A size field: a non-negative integer that fits the machine's `usize`.
pub open spec fn size_field(entries: Seq<(Seq<char>, JVal)>, tag: Seq<char>, field: Seq<char>) -> Result<
    usize,
    CompileErrorV,
> {
    match uint_field(entries, tag, field) {
        Err(e) => Err(e),
        Ok(u) => if u <= usize::MAX {
            Ok(u as usize)
        } else {
            Err(CompileErrorV::TypeMismatch(tag, field))
        },
    }
}

/// Compiles a node with a scalar tag.
pub open spec fn compile_scalar(kind: ScalarKind, tag: Seq<char>, entries: Seq<(Seq<char>, JVal)>) -> Result<
    Gen,
    CompileErrorV,
> {
    match str_field(entries, tag, "lang"@) {
        Err(e) => Err(e),
        Ok(lang) => Ok(Gen::Scalar { scalar: kind, lang }),
    }
}

/// Compiles a node with a ranged tag: `lang`, `min` and `max`, then `min < max`.
pub open spec fn compile_ranged(kind: RangedKind, tag: Seq<char>, entries: Seq<(Seq<char>, JVal)>) -> Result<
    Gen,
    CompileErrorV,
> {
    match str_field(entries, tag, "lang"@) {
        Err(e) => Err(e),
        Ok(lang) => match size_field(entries, tag, "min"@) {
            Err(e) => Err(e),
            Ok(min) => match size_field(entries, tag, "max"@) {
                Err(e) => Err(e),
                Ok(max) => if min >= max {
                    Err(CompileErrorV::InvalidRange(min, max))
                } else {
                    Ok(Gen::Ranged { ranged: kind, lang, min, max })
                },
            },
        },
    }
}

/// Compiles a boolean node: `ratio` is reduced to one byte.
pub open spec fn compile_ratio(tag: Seq<char>, entries: Seq<(Seq<char>, JVal)>) -> Result<Gen, CompileErrorV> {
    match str_field(entries, tag, "lang"@) {
        Err(e) => Err(e),
        Ok(lang) => match uint_field(entries, tag, "ratio"@) {
            Err(e) => Err(e),
            Ok(ratio) => Ok(Gen::Ratio { lang, ratio: (ratio % 256) as u8 }),
        },
    }
}

/// Compiles a number-with-format node.
pub open spec fn compile_formatted(tag: Seq<char>, entries: Seq<(Seq<char>, JVal)>) -> Result<Gen, CompileErrorV> {
    match str_field(entries, tag, "lang"@) {
        Err(e) => Err(e),
        Ok(lang) => match str_field(entries, tag, "format"@) {
            Err(e) => Err(e),
            Ok(format) => Ok(Gen::Formatted { lang, format }),
        },
    }
}

/// Compiles a constant node: `value` is kept as it is.
pub open spec fn compile_constant(tag: Seq<char>, entries: Seq<(Seq<char>, JVal)>) -> Result<Gen, CompileErrorV> {
    match get(entries, "value"@) {
        None => Err(CompileErrorV::MissingField(tag, "value"@)),
        Some(v) => Ok(Gen::Constant { value: v }),
    }
}

/// Compiles an array node: `count`, then its one nested generator.
pub open spec fn compile_array(tag: Seq<char>, entries: Seq<(Seq<char>, JVal)>) -> Result<Gen, CompileErrorV>
    decreases entries, 1int,
{
    match size_field(entries, tag, "count"@) {
        Err(e) => Err(e),
        Ok(count) => match compile_children(entries, Reserved::TagAndCount) {
            Err(e) => Err(e),
            Ok(kids) => if kids.len() == 0 {
                Err(CompileErrorV::EmptyComposite(tag))
            } else if kids.len() > 1 {
                Err(CompileErrorV::AmbiguousTemplate(tag))
            } else {
                Ok(Gen::Array { count, element: Box::new(kids[0].1) })
            },
        },
    }
}

/// Compiles a map node: its nested generators, ordered by name.
pub open spec fn compile_mapping(tag: Seq<char>, entries: Seq<(Seq<char>, JVal)>) -> Result<Gen, CompileErrorV>
    decreases entries, 1int,
{
    match compile_children(entries, Reserved::Tag) {
        Err(e) => Err(e),
        Ok(kids) => if kids.len() == 0 {
            Err(CompileErrorV::EmptyComposite(tag))
        } else {
            Ok(Gen::Mapping { fields: sort_fields(kids) })
        },
    }
}

/// Compiles one schema node.
pub open spec fn compile_spec(node: JVal) -> Result<Gen, CompileErrorV>
    decreases node, 2int,
{
    match node {
        JVal::Obj(entries) => match get(entries, "fake_type"@) {
            Some(JVal::Str(tag)) => match registry(tag) {
                None => Err(CompileErrorV::UnknownTag(tag)),
                Some(Kind::Scalar(k)) => compile_scalar(k, tag, entries),
                Some(Kind::Ranged(k)) => compile_ranged(k, tag, entries),
                Some(Kind::Ratio) => compile_ratio(tag, entries),
                Some(Kind::Formatted) => compile_formatted(tag, entries),
                Some(Kind::Constant) => compile_constant(tag, entries),
                Some(Kind::Array) => compile_array(tag, entries),
                Some(Kind::Mapping) => compile_mapping(tag, entries),
            },
            _ => Err(CompileErrorV::MissingOrInvalidTag),
        },
        _ => Err(CompileErrorV::StructuralError),
    }
}

/// Compiles the nested generators of an object in order, skipping reserved keys;
/// the first error aborts.
pub open spec fn compile_children(entries: Seq<(Seq<char>, JVal)>, reserved: Reserved) -> Result<
    Seq<(Seq<char>, Gen)>,
    CompileErrorV,
>
    decreases entries, 0int,
{
    if entries.len() == 0 {
        Ok(Seq::empty())
    } else {
        let last = entries[entries.len() - 1];
        match compile_children(entries.subrange(0, entries.len() - 1), reserved) {
            Err(e) => Err(e),
            Ok(kids) => if is_reserved(last.0, reserved) {
                Ok(kids)
            } else {
                match compile_spec(last.1) {
                    Err(e) => Err(e),
                    Ok(g) => Ok(kids.push((last.0, g))),
                }
            },
        }
    }
}

/// Inserts a named entry among entries ordered by name; an entry of the same
/// name is replaced.
pub open spec fn insert_sorted<V>(fields: Seq<(Seq<char>, V)>, e: (Seq<char>, V)) -> Seq<(Seq<char>, V)>
    decreases fields.len(),
{
    if fields.len() == 0 {
        seq![e]
    } else if lex_lt(e.0, fields[0].0) {
        seq![e] + fields
    } else if e.0 == fields[0].0 {
        seq![e] + fields.drop_first()
    } else {
        seq![fields[0]] + insert_sorted(fields.drop_first(), e)
    }
}

/// Named entries ordered by name (of two with one name, the later stays).
pub open spec fn sort_fields<V>(fields: Seq<(Seq<char>, V)>) -> Seq<(Seq<char>, V)>
    decreases fields.len(),
{
    if fields.len() == 0 {
        fields
    } else {
        insert_sorted(sort_fields(fields.drop_last()), fields.last())
    }
}

/// Compiles a whole definition: an object whose every entry is a schema node.
pub open spec fn compile_definition(root: JVal) -> Result<Seq<(Seq<char>, Gen)>, CompileErrorV> {
    match root {
        JVal::Obj(entries) => match compile_children(entries, Reserved::Nothing) {
            Err(e) => Err(e),
            Ok(kids) => Ok(sort_fields(kids)),
        },
        JVal::Arr(_) => Err(CompileErrorV::RootIsArray),
        _ => Err(CompileErrorV::StructuralError),
    }
}

} // verus!
