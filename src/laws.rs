use vstd::prelude::*;
use crate::error::CompileErrorV;
use crate::generator::{
    fields_wf, is_outcome, lemma_fields_wf, registry, sorted_by_name, wf, Gen, Kind, RangedKind,
};
use crate::json::{get, JVal};
use crate::provider::{is_paragraph, is_sentence, join_with, sentence_text};
use crate::order::{lemma_lex_irreflexive, lemma_lex_total, lemma_lex_transitive, lex_lt};
use crate::schema::{
    compile_children, compile_definition, compile_mapping, compile_spec,
    insert_sorted, is_reserved, size_field, sort_fields, str_field, Reserved,
};

verus! {

/// Inserting keeps the other fields, adds the new one, and keeps names in order.
pub proof fn lemma_insert_sorted<V>(s: Seq<(Seq<char>, V)>, e: (Seq<char>, V))
    ensures
        insert_sorted(s, e).contains(e),
        forall|x: (Seq<char>, V)| #[trigger]
            insert_sorted(s, e).contains(x) ==> x == e || s.contains(x),
        forall|x: (Seq<char>, V)| s.contains(x) && x.0 != e.0 ==> #[trigger] insert_sorted(
            s,
            e,
        ).contains(x),
        sorted_by_name(s) ==> sorted_by_name(insert_sorted(s, e)),
    decreases s.len(),
{
    let r = insert_sorted(s, e);
    if s.len() == 0 {
        assert(r[0] == e);
    } else if lex_lt(e.0, s[0].0) {
        assert(r[0] == e);
        assert forall|x: (Seq<char>, V)| r.contains(x) implies x == e || s.contains(x) by {
            let i = choose|i: int| 0 <= i < r.len() && r[i] == x;
            if i > 0 {
                assert(s[i - 1] == x);
            }
        }
        assert forall|x: (Seq<char>, V)| s.contains(x) && x.0 != e.0 implies r.contains(x) by {
            let i = choose|i: int| 0 <= i < s.len() && s[i] == x;
            assert(r[i + 1] == x);
        }
        if sorted_by_name(s) {
            assert forall|i: int, j: int| 0 <= i < j < r.len() implies lex_lt(
                #[trigger] r[i].0,
                #[trigger] r[j].0,
            ) by {
                if i == 0 {
                    if j - 1 > 0 {
                        assert(lex_lt(s[0].0, s[j - 1].0));
                        lemma_lex_transitive(e.0, s[0].0, s[j - 1].0);
                    }
                } else {
                    assert(lex_lt(s[i - 1].0, s[j - 1].0));
                }
            }
        }
    } else if e.0 == s[0].0 {
        assert(r[0] == e);
        assert forall|x: (Seq<char>, V)| r.contains(x) implies x == e || s.contains(x) by {
            let i = choose|i: int| 0 <= i < r.len() && r[i] == x;
            if i > 0 {
                assert(s[i] == x);
            }
        }
        assert forall|x: (Seq<char>, V)| s.contains(x) && x.0 != e.0 implies r.contains(x) by {
            let i = choose|i: int| 0 <= i < s.len() && s[i] == x;
            assert(i != 0);
            assert(r[i] == x);
        }
        if sorted_by_name(s) {
            assert forall|i: int, j: int| 0 <= i < j < r.len() implies lex_lt(
                #[trigger] r[i].0,
                #[trigger] r[j].0,
            ) by {
                assert(lex_lt(s[i].0, s[j].0));
            }
        }
    } else {
        let t = s.drop_first();
        lemma_insert_sorted(t, e);
        let rt = insert_sorted(t, e);
        assert(r == seq![s[0]] + rt);
        assert(r[0] == s[0]);
        assert forall|k: int| 0 <= k < rt.len() implies r[k + 1] == #[trigger] rt[k] by {}
        assert(rt.contains(e));
        let ie = choose|i: int| 0 <= i < rt.len() && rt[i] == e;
        assert(r[ie + 1] == e);
        assert forall|x: (Seq<char>, V)| r.contains(x) implies x == e || s.contains(x) by {
            let i = choose|i: int| 0 <= i < r.len() && r[i] == x;
            if i == 0 {
                assert(s[0] == x);
            } else {
                assert(rt[i - 1] == x);
                assert(rt.contains(x));
                if x != e {
                    assert(t.contains(x));
                    let k = choose|k: int| 0 <= k < t.len() && t[k] == x;
                    assert(s[k + 1] == x);
                }
            }
        }
        assert forall|x: (Seq<char>, V)| s.contains(x) && x.0 != e.0 implies r.contains(x) by {
            let i = choose|i: int| 0 <= i < s.len() && s[i] == x;
            if i == 0 {
                assert(r[0] == x);
            } else {
                assert(t[i - 1] == x);
                assert(rt.contains(x));
                let k = choose|k: int| 0 <= k < rt.len() && rt[k] == x;
                assert(r[k + 1] == x);
            }
        }
        if sorted_by_name(s) {
            lemma_lex_total(e.0, s[0].0);
            assert(lex_lt(s[0].0, e.0));
            assert(sorted_by_name(t)) by {
                assert forall|i: int, j: int| 0 <= i < j < t.len() implies lex_lt(
                    #[trigger] t[i].0,
                    #[trigger] t[j].0,
                ) by {
                    assert(lex_lt(s[i + 1].0, s[j + 1].0));
                }
            }
            assert forall|i: int, j: int| 0 <= i < j < r.len() implies lex_lt(
                #[trigger] r[i].0,
                #[trigger] r[j].0,
            ) by {
                if i == 0 {
                    let y = rt[j - 1];
                    assert(r[j] == y);
                    assert(rt.contains(y));
                    if y == e {
                    } else {
                        assert(t.contains(y));
                        let k = choose|k: int| 0 <= k < t.len() && t[k] == y;
                        assert(lex_lt(s[0].0, s[k + 1].0));
                    }
                } else {
                    assert(r[i] == rt[i - 1]);
                    assert(r[j] == rt[j - 1]);
                }
            }
        }
    }
}

/// Sorting yields fields in strictly ascending order of name, each one of the
/// given fields.
pub proof fn lemma_sort_fields<V>(s: Seq<(Seq<char>, V)>)
    ensures
        sorted_by_name(sort_fields(s)),
        forall|x: (Seq<char>, V)| #[trigger] sort_fields(s).contains(x) ==> s.contains(x),
    decreases s.len(),
{
    if s.len() > 0 {
        let pre = s.drop_last();
        lemma_sort_fields(pre);
        lemma_insert_sorted(sort_fields(pre), s.last());
        assert forall|x: (Seq<char>, V)| #[trigger] sort_fields(s).contains(x) implies s.contains(x) by {
            if x == s.last() {
                assert(s[s.len() - 1] == x);
            } else {
                assert(sort_fields(pre).contains(x));
                assert(pre.contains(x));
                let k = choose|k: int| 0 <= k < pre.len() && pre[k] == x;
                assert(s[k] == x);
            }
        }
    }
}

/// Whatever compiles can be evaluated.
pub proof fn lemma_compile_wf(node: JVal)
    ensures
        compile_spec(node) matches Ok(g) ==> wf(g),
    decreases node, 2int,
{
    match node {
        JVal::Obj(entries) => {
            lemma_children_wf(entries, Reserved::TagAndCount);
            lemma_children_wf(entries, Reserved::Tag);
            if let Ok(kids) = compile_children(entries, Reserved::Tag) {
                lemma_sort_fields(kids);
                lemma_fields_wf(kids);
                lemma_fields_wf(sort_fields(kids));
                assert forall|i: int| 0 <= i < sort_fields(kids).len() implies #[trigger] wf(
                    sort_fields(kids)[i].1,
                ) by {
                    let x = sort_fields(kids)[i];
                    assert(sort_fields(kids).contains(x));
                    let k = choose|k: int| 0 <= k < kids.len() && kids[k] == x;
                    assert(wf(kids[k].1));
                }
            }
            if let Ok(kids) = compile_children(entries, Reserved::TagAndCount) {
                lemma_fields_wf(kids);
                if kids.len() > 0 {
                    assert(wf(kids[0].1));
                }
            }
        },
        _ => {},
    }
}

/// The children that compile can be evaluated.
pub proof fn lemma_children_wf(entries: Seq<(Seq<char>, JVal)>, reserved: Reserved)
    ensures
        compile_children(entries, reserved) matches Ok(kids) ==> fields_wf(kids),
    decreases entries, 0int,
{
    if entries.len() > 0 {
        let pre = entries.subrange(0, entries.len() - 1);
        let last = entries[entries.len() - 1];
        lemma_children_wf(pre, reserved);
        lemma_compile_wf(last.1);
        if let Ok(kids) = compile_children(pre, reserved) {
            let more = kids.push((last.0, compile_spec(last.1)->Ok_0));
            assert(more.subrange(0, more.len() - 1) =~= kids);
        }
    }
}

/// A compiled definition can be evaluated, and its fields are in strictly
/// ascending order of name.
pub proof fn lemma_definition_wf(root: JVal)
    ensures
        compile_definition(root) matches Ok(fields) ==> fields_wf(fields) && sorted_by_name(fields),
{
    if let JVal::Obj(entries) = root {
        lemma_children_wf(entries, Reserved::Nothing);
        if let Ok(kids) = compile_children(entries, Reserved::Nothing) {
            lemma_sort_fields(kids);
            lemma_fields_wf(kids);
            lemma_fields_wf(sort_fields(kids));
            assert forall|i: int| 0 <= i < sort_fields(kids).len() implies #[trigger] wf(
                sort_fields(kids)[i].1,
            ) by {
                let x = sort_fields(kids)[i];
                assert(sort_fields(kids).contains(x));
                let k = choose|k: int| 0 <= k < kids.len() && kids[k] == x;
                assert(wf(kids[k].1));
            }
        }
    }
}

/// A node whose `fake_type` names no registered generator fails to compile
/// with `UnknownTag` of that name.
pub proof fn law_unknown_tag(entries: Seq<(Seq<char>, JVal)>, tag: Seq<char>)
    requires
        get(entries, "fake_type"@) == Some(JVal::Str(tag)),
        registry(tag) is None,
    ensures
        compile_spec(JVal::Obj(entries)) == Err::<Gen, _>(CompileErrorV::UnknownTag(tag)),
{
}

/// A ranged node with well-typed fields compiles exactly when `min < max`, and
/// otherwise fails with `InvalidRange(min, max)`.
pub proof fn law_ranged_bounds(
    entries: Seq<(Seq<char>, JVal)>,
    tag: Seq<char>,
    kind: RangedKind,
    lang: Seq<char>,
    min: usize,
    max: usize,
)
    requires
        get(entries, "fake_type"@) == Some(JVal::Str(tag)),
        registry(tag) == Some(Kind::Ranged(kind)),
        str_field(entries, tag, "lang"@) == Ok::<_, CompileErrorV>(lang),
        size_field(entries, tag, "min"@) == Ok::<_, CompileErrorV>(min),
        size_field(entries, tag, "max"@) == Ok::<_, CompileErrorV>(max),
    ensures
        min >= max ==> compile_spec(JVal::Obj(entries)) == Err::<Gen, _>(
            CompileErrorV::InvalidRange(min, max),
        ),
        min < max ==> compile_spec(JVal::Obj(entries)) == Ok::<_, CompileErrorV>(
            Gen::Ranged { ranged: kind, lang, min, max },
        ),
{
}

/// Evaluating a ranged generator of lists gives between `min` and `max - 1`
/// items, and a password generator that many characters.
pub proof fn law_ranged_units(ranged: RangedKind, lang: Seq<char>, min: usize, max: usize, v: JVal)
    requires
        is_outcome(Gen::Ranged { ranged, lang, min, max }, v),
    ensures
        ranged == RangedKind::Words || ranged == RangedKind::Sentences || ranged
            == RangedKind::Paragraphs ==> (v matches JVal::Arr(items) && min <= items.len() < max),
        ranged == RangedKind::Password ==> (v matches JVal::Str(s) && min <= s.len() < max),
{
}

/// Evaluating a constant gives back its value, and so every two evaluations
/// agree.
pub proof fn law_constant_value(value: JVal, v1: JVal, v2: JVal)
    requires
        is_outcome(Gen::Constant { value }, v1),
        is_outcome(Gen::Constant { value }, v2),
    ensures
        v1 == value,
        v1 == v2,
{
}

/// Evaluating an array generator gives an array of exactly `count` items, each
/// an outcome of the element generator.
pub proof fn law_array_length(count: usize, element: Gen, v: JVal)
    requires
        is_outcome(Gen::Array { count, element: Box::new(element) }, v),
    ensures
        v matches JVal::Arr(items) && items.len() == count && forall|i: int|
            0 <= i < items.len() ==> is_outcome(element, #[trigger] items[i]),
{
}

/// Evaluating a map generator whose fields are in order of name gives an
/// object with the fields' names, in strictly ascending order.
pub proof fn law_mapping_keys(fields: Seq<(Seq<char>, Gen)>, v: JVal)
    requires
        sorted_by_name(fields),
        is_outcome(Gen::Mapping { fields }, v),
    ensures
        v matches JVal::Obj(entries) && entries.len() == fields.len() && (forall|i: int|
            0 <= i < entries.len() ==> (#[trigger] entries[i]).0 == fields[i].0) && (forall|
            i: int,
            j: int,
        | 0 <= i < j < entries.len() ==> lex_lt(#[trigger] entries[i].0, #[trigger] entries[j].0)),
{
    if let JVal::Obj(entries) = v {
        assert forall|i: int, j: int| 0 <= i < j < entries.len() implies lex_lt(
            #[trigger] entries[i].0,
            #[trigger] entries[j].0,
        ) by {
            assert(entries[i].0 == fields[i].0);
            assert(entries[j].0 == fields[j].0);
        }
    }
}

/// A compiled map generator has its fields in strictly ascending order of
/// name, whatever the order of the schema's entries.
pub proof fn law_compiled_mapping_sorted(tag: Seq<char>, entries: Seq<(Seq<char>, JVal)>)
    ensures
        compile_mapping(tag, entries) matches Ok(g) ==> g matches Gen::Mapping { fields }
            && sorted_by_name(fields),
{
    if let Ok(kids) = compile_children(entries, Reserved::Tag) {
        lemma_sort_fields(kids);
    }
}

/// No two entries share a key.
pub open spec fn unique_keys<T>(es: Seq<(Seq<char>, T)>) -> bool {
    forall|i: int, j: int| 0 <= i < j < es.len() ==> #[trigger] es[i].0 != #[trigger] es[j].0
}

/// `x` is the compiled form of a nested generator among the entries.
pub open spec fn is_compiled_child(es: Seq<(Seq<char>, JVal)>, reserved: Reserved, x: (Seq<char>, Gen)) -> bool {
    exists|i: int|
        0 <= i < es.len() && !is_reserved(#[trigger] es[i].0, reserved) && compile_spec(es[i].1) == Ok::<
            _,
            CompileErrorV,
        >(x.1) && x.0 == es[i].0
}

/// Every nested generator compiles.
pub open spec fn children_compile(es: Seq<(Seq<char>, JVal)>, reserved: Reserved) -> bool {
    forall|i: int|
        0 <= i < es.len() && !is_reserved(#[trigger] es[i].0, reserved) ==> compile_spec(es[i].1) is Ok
}

/// The children of an object compile exactly when each nested generator does,
/// and then they are the compiled nested generators, one per entry.
pub proof fn lemma_children(es: Seq<(Seq<char>, JVal)>, reserved: Reserved)
    ensures
        compile_children(es, reserved) is Ok <==> children_compile(es, reserved),
        compile_children(es, reserved) matches Ok(kids) ==> (forall|x: (Seq<char>, Gen)|
            #[trigger] kids.contains(x) <==> is_compiled_child(es, reserved, x)),
        compile_children(es, reserved) matches Ok(kids) ==> (unique_keys(es) ==> unique_keys(kids)),
    decreases es.len(),
{
    if es.len() == 0 {
        if let Ok(kids) = compile_children(es, reserved) {
            assert(kids.len() == 0);
        }
    } else {
        let pre = es.subrange(0, es.len() - 1);
        let last = es[es.len() - 1];
        let n = es.len() - 1;
        lemma_children(pre, reserved);
        assert forall|i: int| 0 <= i < pre.len() implies #[trigger] pre[i] == es[i] by {}
        if children_compile(es, reserved) {
            assert(children_compile(pre, reserved)) by {
                assert forall|i: int| 0 <= i < pre.len() && !is_reserved(#[trigger] pre[i].0, reserved)
                    implies compile_spec(pre[i].1) is Ok by {
                    assert(pre[i] == es[i]);
                }
            }
            if !is_reserved(last.0, reserved) {
                assert(compile_spec(es[n].1) is Ok);
            }
        }
        if compile_children(es, reserved) is Ok {
            assert(children_compile(es, reserved)) by {
                assert forall|i: int| 0 <= i < es.len() && !is_reserved(#[trigger] es[i].0, reserved)
                    implies compile_spec(es[i].1) is Ok by {
                    if i < n {
                        assert(pre[i] == es[i]);
                    }
                }
            }
        }
        if let Ok(kids) = compile_children(es, reserved) {
            let pk = compile_children(pre, reserved)->Ok_0;
            assert forall|x: (Seq<char>, Gen)| #[trigger] kids.contains(x) <==> is_compiled_child(
                es,
                reserved,
                x,
            ) by {
                if kids.contains(x) {
                    if pk.contains(x) {
                        let i = choose|i: int|
                            0 <= i < pre.len() && !is_reserved(#[trigger] pre[i].0, reserved)
                                && compile_spec(pre[i].1) == Ok::<_, CompileErrorV>(x.1) && x.0
                                == pre[i].0;
                        assert(es[i] == pre[i]);
                    } else {
                        assert(!is_reserved(last.0, reserved));
                        let k = choose|k: int| 0 <= k < kids.len() && kids[k] == x;
                        assert(k == pk.len());
                        assert(es[n] == last);
                    }
                }
                if is_compiled_child(es, reserved, x) {
                    let i = choose|i: int|
                        0 <= i < es.len() && !is_reserved(#[trigger] es[i].0, reserved) && compile_spec(
                            es[i].1,
                        ) == Ok::<_, CompileErrorV>(x.1) && x.0 == es[i].0;
                    if i < n {
                        assert(pre[i] == es[i]);
                        assert(is_compiled_child(pre, reserved, x));
                        assert(pk.contains(x));
                        let k = choose|k: int| 0 <= k < pk.len() && pk[k] == x;
                        assert(kids[k] == x);
                    } else {
                        assert(kids[kids.len() - 1] == x);
                    }
                }
            }
            if unique_keys(es) {
                assert(unique_keys(pre)) by {
                    assert forall|i: int, j: int| 0 <= i < j < pre.len() implies #[trigger] pre[i].0
                        != #[trigger] pre[j].0 by {
                        assert(es[i].0 != es[j].0);
                    }
                }
                if !is_reserved(last.0, reserved) {
                    assert forall|i: int, j: int| 0 <= i < j < kids.len() implies #[trigger] kids[i].0
                        != #[trigger] kids[j].0 by {
                        if j == kids.len() - 1 {
                            assert(pk.contains(kids[i]));
                            assert(is_compiled_child(pre, reserved, kids[i]));
                            let k = choose|k: int|
                                0 <= k < pre.len() && !is_reserved(#[trigger] pre[k].0, reserved)
                                    && compile_spec(pre[k].1) == Ok::<_, CompileErrorV>(kids[i].1)
                                    && kids[i].0 == pre[k].0;
                            assert(es[k].0 != es[n].0);
                        } else {
                            assert(kids[i] == pk[i]);
                            assert(kids[j] == pk[j]);
                        }
                    }
                }
            }
        }
    }
}

/// Two lists of fields in strictly ascending order of name that hold the same
/// fields are equal.
pub proof fn lemma_sorted_unique(a: Seq<(Seq<char>, Gen)>, b: Seq<(Seq<char>, Gen)>)
    requires
        sorted_by_name(a),
        sorted_by_name(b),
        forall|x: (Seq<char>, Gen)| #[trigger] a.contains(x) <==> b.contains(x),
    ensures
        a == b,
    decreases a.len(),
{
    if a.len() == 0 {
        if b.len() > 0 {
            assert(b.contains(b[0]));
            assert(a.contains(b[0]));
        }
        assert(a =~= b);
    } else {
        assert(a.contains(a[0]));
        assert(b.contains(a[0]));
        let j = choose|j: int| 0 <= j < b.len() && b[j] == a[0];
        assert(b.contains(b[0]));
        assert(a.contains(b[0]));
        let k = choose|k: int| 0 <= k < a.len() && a[k] == b[0];
        if j > 0 {
            assert(lex_lt(b[0].0, b[j].0));
            if k == 0 {
                lemma_lex_irreflexive(b[0].0);
            } else {
                assert(lex_lt(a[0].0, a[k].0));
                lemma_lex_total(a[0].0, b[0].0);
            }
        }
        assert(a[0] == b[0]);
        let ta = a.drop_first();
        let tb = b.drop_first();
        assert forall|x: (Seq<char>, Gen)| #[trigger] ta.contains(x) <==> tb.contains(x) by {
            if ta.contains(x) {
                let i = choose|i: int| 0 <= i < ta.len() && ta[i] == x;
                assert(a[i + 1] == x);
                assert(lex_lt(a[0].0, x.0));
                lemma_lex_irreflexive(x.0);
                assert(a.contains(x));
                assert(b.contains(x));
                let m = choose|m: int| 0 <= m < b.len() && b[m] == x;
                assert(m != 0);
                assert(tb[m - 1] == x);
            }
            if tb.contains(x) {
                let i = choose|i: int| 0 <= i < tb.len() && tb[i] == x;
                assert(b[i + 1] == x);
                assert(lex_lt(b[0].0, x.0));
                lemma_lex_irreflexive(x.0);
                assert(a.contains(x));
                let m = choose|m: int| 0 <= m < a.len() && a[m] == x;
                assert(m != 0);
                assert(ta[m - 1] == x);
            }
        }
        assert(sorted_by_name(ta)) by {
            assert forall|i: int, j: int| 0 <= i < j < ta.len() implies lex_lt(
                #[trigger] ta[i].0,
                #[trigger] ta[j].0,
            ) by {
                assert(lex_lt(a[i + 1].0, a[j + 1].0));
            }
        }
        assert(sorted_by_name(tb)) by {
            assert forall|i: int, j: int| 0 <= i < j < tb.len() implies lex_lt(
                #[trigger] tb[i].0,
                #[trigger] tb[j].0,
            ) by {
                assert(lex_lt(b[i + 1].0, b[j + 1].0));
            }
        }
        lemma_sorted_unique(ta, tb);
        assert(a =~= seq![a[0]] + ta);
        assert(b =~= seq![b[0]] + tb);
    }
}

/// Sorting fields with distinct names keeps every one of them.
pub proof fn lemma_sort_keeps(s: Seq<(Seq<char>, Gen)>)
    requires
        unique_keys(s),
    ensures
        forall|x: (Seq<char>, Gen)| #[trigger] sort_fields(s).contains(x) <==> s.contains(x),
    decreases s.len(),
{
    lemma_sort_fields(s);
    if s.len() > 0 {
        let pre = s.drop_last();
        assert(unique_keys(pre)) by {
            assert forall|i: int, j: int| 0 <= i < j < pre.len() implies #[trigger] pre[i].0
                != #[trigger] pre[j].0 by {
                assert(s[i].0 != s[j].0);
            }
        }
        lemma_sort_keeps(pre);
        lemma_insert_sorted(sort_fields(pre), s.last());
        assert forall|x: (Seq<char>, Gen)| s.contains(x) implies #[trigger] sort_fields(s).contains(x) by {
            let i = choose|i: int| 0 <= i < s.len() && s[i] == x;
            if i < s.len() - 1 {
                assert(pre[i] == x);
                assert(pre.contains(x));
                assert(x.0 != s.last().0);
            }
        }
    }
}

/// Two objects with the same entries, keys distinct, compile their nested
/// generators alike.
proof fn lemma_children_order(
    e1: Seq<(Seq<char>, JVal)>,
    e2: Seq<(Seq<char>, JVal)>,
    reserved: Reserved,
)
    requires
        unique_keys(e1),
        unique_keys(e2),
        forall|x: (Seq<char>, JVal)| #[trigger] e1.contains(x) <==> e2.contains(x),
    ensures
        compile_children(e1, reserved) is Ok <==> compile_children(e2, reserved) is Ok,
        compile_children(e1, reserved) matches Ok(k1) ==> compile_children(e2, reserved) matches Ok(k2)
            && sort_fields(k1) == sort_fields(k2),
{
    lemma_children(e1, reserved);
    lemma_children(e2, reserved);
    assert(children_compile(e1, reserved) <==> children_compile(e2, reserved)) by {
        if children_compile(e1, reserved) {
            assert forall|i: int| 0 <= i < e2.len() && !is_reserved(#[trigger] e2[i].0, reserved)
                implies compile_spec(e2[i].1) is Ok by {
                assert(e2.contains(e2[i]));
                assert(e1.contains(e2[i]));
                let k = choose|k: int| 0 <= k < e1.len() && e1[k] == e2[i];
                assert(compile_spec(e1[k].1) is Ok);
            }
        }
        if children_compile(e2, reserved) {
            assert forall|i: int| 0 <= i < e1.len() && !is_reserved(#[trigger] e1[i].0, reserved)
                implies compile_spec(e1[i].1) is Ok by {
                assert(e1.contains(e1[i]));
                assert(e2.contains(e1[i]));
                let k = choose|k: int| 0 <= k < e2.len() && e2[k] == e1[i];
                assert(compile_spec(e2[k].1) is Ok);
            }
        }
    }
    if let Ok(k1) = compile_children(e1, reserved) {
        let k2 = compile_children(e2, reserved)->Ok_0;
        assert forall|x: (Seq<char>, Gen)| #[trigger] k1.contains(x) <==> k2.contains(x) by {
            if is_compiled_child(e1, reserved, x) {
                let i = choose|i: int|
                    0 <= i < e1.len() && !is_reserved(#[trigger] e1[i].0, reserved) && compile_spec(
                        e1[i].1,
                    ) == Ok::<_, CompileErrorV>(x.1) && x.0 == e1[i].0;
                assert(e1.contains(e1[i]));
                assert(e2.contains(e1[i]));
                let k = choose|k: int| 0 <= k < e2.len() && e2[k] == e1[i];
                assert(is_compiled_child(e2, reserved, x));
            }
            if is_compiled_child(e2, reserved, x) {
                let i = choose|i: int|
                    0 <= i < e2.len() && !is_reserved(#[trigger] e2[i].0, reserved) && compile_spec(
                        e2[i].1,
                    ) == Ok::<_, CompileErrorV>(x.1) && x.0 == e2[i].0;
                assert(e2.contains(e2[i]));
                assert(e1.contains(e2[i]));
                let k = choose|k: int| 0 <= k < e1.len() && e1[k] == e2[i];
                assert(is_compiled_child(e1, reserved, x));
            }
        }
        lemma_sort_keeps(k1);
        lemma_sort_keeps(k2);
        lemma_sort_fields(k1);
        lemma_sort_fields(k2);
        lemma_sorted_unique(sort_fields(k1), sort_fields(k2));
    }
}

/// The order in which a schema object declares its entries does not matter:
/// two objects with the same entries, keys distinct, compile their nested
/// generators alike and give their fields in the same order, as a whole
/// definition and as a map node.
pub proof fn law_declaration_order(
    e1: Seq<(Seq<char>, JVal)>,
    e2: Seq<(Seq<char>, JVal)>,
    tag: Seq<char>,
)
    requires
        unique_keys(e1),
        unique_keys(e2),
        forall|x: (Seq<char>, JVal)| #[trigger] e1.contains(x) <==> e2.contains(x),
    ensures
        compile_definition(JVal::Obj(e1)) is Ok ==> compile_definition(JVal::Obj(e2))
            == compile_definition(JVal::Obj(e1)),
        compile_mapping(tag, e1) is Ok ==> compile_mapping(tag, e2) == compile_mapping(tag, e1),
{
    lemma_children_order(e1, e2, Reserved::Nothing);
    lemma_children_order(e1, e2, Reserved::Tag);
}

/// A drawn sentence ends with a full stop, so it is never empty; a drawn
/// paragraph of at least one sentence is not empty either.
pub proof fn law_text_not_empty(s: Seq<char>, min: int, max: int)
    ensures
        is_sentence(s, min, max) ==> s.len() > 0 && s.last() == '.',
        is_paragraph(s, min, max) && min > 0 ==> s.len() > 0,
{
    if is_sentence(s, min, max) {
        let words = choose|words: Seq<Seq<char>>|
            min <= words.len() < max && (forall|j: int| 0 <= j < words.len() ==> #[trigger] words[j].len() > 0)
                && s == #[trigger] sentence_text(words);
        assert(s == join_with(words, seq![' ']).push('.'));
    }
    if is_paragraph(s, min, max) && min > 0 {
        let lines = choose|lines: Seq<Seq<char>>|
            min <= lines.len() < max && (forall|j: int|
                0 <= j < lines.len() ==> is_sentence(#[trigger] lines[j], 4, 10)) && s == #[trigger] join_with(
                lines,
                seq!['\n'],
            );
        let last = lines[lines.len() - 1];
        assert(is_sentence(last, 4, 10));
        let words = choose|words: Seq<Seq<char>>|
            4 <= words.len() < 10 && (forall|j: int| 0 <= j < words.len() ==> #[trigger] words[j].len() > 0)
                && last == #[trigger] sentence_text(words);
        assert(last.len() > 0);
        if lines.len() > 1 {
            assert(s == join_with(lines.drop_last(), seq!['\n']) + seq!['\n'] + lines.last());
        }
    }
}

} // verus!
