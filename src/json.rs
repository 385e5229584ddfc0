use vstd::prelude::*;

verus! {

#[derive(Debug, PartialEq)]
pub enum Number {
    PosInt(u64),
    NegInt(i64),
    Float(String),
}

#[derive(Debug, PartialEq)]
pub enum Json {
    Null,
    Bool(bool),
    Number(Number),
    String(String),
    Array(Vec<Json>),
    Object(Vec<(String, Json)>),
}

pub ghost enum NumberV {
    PosInt(u64),
    NegInt(i64),
    Float(Seq<char>),
}

pub ghost enum JVal {
    Null,
    Bool(bool),
    Num(NumberV),
    Str(Seq<char>),
    Arr(Seq<JVal>),
    Obj(Seq<(Seq<char>, JVal)>),
}

impl View for Number {
    type V = NumberV;

    open spec fn view(&self) -> NumberV {
        match self {
            Number::PosInt(n) => NumberV::PosInt(*n),
            Number::NegInt(n) => NumberV::NegInt(*n),
            Number::Float(s) => NumberV::Float(s@),
        }
    }
}

impl View for Json {
    type V = JVal;

    open spec fn view(&self) -> JVal
        decreases self,
    {
        match self {
            Json::Null => JVal::Null,
            Json::Bool(b) => JVal::Bool(*b),
            Json::Number(n) => JVal::Num(n@),
            Json::String(s) => JVal::Str(s@),
            Json::Array(items) => JVal::Arr(view_items(items@)),
            Json::Object(entries) => JVal::Obj(view_entries(entries@)),
        }
    }
}

/// The views of a sequence of values, in order.
pub open spec fn view_items(items: Seq<Json>) -> Seq<JVal>
    decreases items,
{
    if items.len() == 0 {
        Seq::empty()
    } else {
        view_items(items.subrange(0, items.len() - 1)).push(items[items.len() - 1].view())
    }
}

/// The views of a sequence of object entries, in order.
pub open spec fn view_entries(entries: Seq<(String, Json)>) -> Seq<(Seq<char>, JVal)>
    decreases entries,
{
    if entries.len() == 0 {
        Seq::empty()
    } else {
        let last = entries[entries.len() - 1];
        view_entries(entries.subrange(0, entries.len() - 1)).push((last.0@, last.1.view()))
    }
}

/// The array view has one item per item, each the view of the item.
pub proof fn lemma_view_items(items: Seq<Json>)
    ensures
        view_items(items).len() == items.len(),
        forall|i: int| 0 <= i < items.len() ==> #[trigger] view_items(items)[i] == items[i]@,
    decreases items.len(),
{
    if items.len() > 0 {
        let pre = items.subrange(0, items.len() - 1);
        lemma_view_items(pre);
        assert(view_items(items) == view_items(pre).push(items[items.len() - 1]@));
        assert forall|i: int| 0 <= i < items.len() implies #[trigger] view_items(items)[i]
            == items[i]@ by {
            if i < items.len() - 1 {
                assert(pre[i] == items[i]);
            }
        }
    } else {
        assert(view_items(items) == Seq::<JVal>::empty());
    }
}

/// The object view has one entry per entry, each the view of the entry.
pub proof fn lemma_view_entries(entries: Seq<(String, Json)>)
    ensures
        view_entries(entries).len() == entries.len(),
        forall|i: int|
            0 <= i < entries.len() ==> #[trigger] view_entries(entries)[i] == (
            entries[i].0@,
            entries[i].1@,
        ),
    decreases entries.len(),
{
    if entries.len() > 0 {
        let pre = entries.subrange(0, entries.len() - 1);
        let last = entries[entries.len() - 1];
        lemma_view_entries(pre);
        assert(view_entries(entries) == view_entries(pre).push((last.0@, last.1@)));
        assert forall|i: int| 0 <= i < entries.len() implies #[trigger] view_entries(entries)[i]
            == (entries[i].0@, entries[i].1@) by {
            if i < entries.len() - 1 {
                assert(pre[i] == entries[i]);
            }
        }
    } else {
        assert(view_entries(entries) == Seq::<(Seq<char>, JVal)>::empty());
    }
}

/// Whether some entry of an object has the key.
pub open spec fn has_key(entries: Seq<(Seq<char>, JVal)>, key: Seq<char>) -> bool {
    exists|i: int| 0 <= i < entries.len() && entries[i].0 == key
}

/// Whether `i` is the first entry with the key.
pub open spec fn is_first_key(entries: Seq<(Seq<char>, JVal)>, key: Seq<char>, i: int) -> bool {
    &&& 0 <= i < entries.len()
    &&& entries[i].0 == key
    &&& forall|j: int| 0 <= j < i ==> entries[j].0 != key
}

/// The value of the first entry with the key, if there is one.
pub open spec fn get(entries: Seq<(Seq<char>, JVal)>, key: Seq<char>) -> Option<JVal> {
    if has_key(entries, key) {
        let i = choose|i: int| is_first_key(entries, key, i);
        Some(entries[i].1)
    } else {
        None
    }
}

/// The value of a number when it is a non-negative integer.
pub open spec fn uint_value(n: NumberV) -> Option<u64> {
    match n {
        NumberV::PosInt(u) => Some(u),
        NumberV::NegInt(i) => if i >= 0 {
            Some(i as u64)
        } else {
            None
        },
        NumberV::Float(_) => None,
    }
}

/// Compares two strings character by character.
pub fn str_eq(a: &str, b: &str) -> (r: bool)
    ensures
        r == (a@ == b@),
{
    let n = a.unicode_len();
    if n != b.unicode_len() {
        return false;
    }
    let mut i: usize = 0;
    while i < n
        invariant
            n == a@.len(),
            n == b@.len(),
            i <= n,
            a@.subrange(0, i as int) == b@.subrange(0, i as int),
        decreases n - i,
    {
        if a.get_char(i) != b.get_char(i) {
            return false;
        }
        assert(a@.subrange(0, i + 1) =~= a@.subrange(0, i as int).push(a@[i as int]));
        assert(b@.subrange(0, i + 1) =~= b@.subrange(0, i as int).push(b@[i as int]));
        i = i + 1;
    }
    assert(a@ =~= a@.subrange(0, n as int));
    assert(b@ =~= b@.subrange(0, n as int));
    true
}

/// Index of the first entry whose key is `key`.
pub fn find_key(entries: &Vec<(String, Json)>, key: &str) -> (r: Option<usize>)
    ensures
        match r {
            Some(i) => is_first_key(view_entries(entries@), key@, i as int),
            None => !has_key(view_entries(entries@), key@),
        },
{
    let ghost es = view_entries(entries@);
    proof {
        lemma_view_entries(entries@);
    }
    let mut i: usize = 0;
    while i < entries.len()
        invariant
            i <= entries@.len(),
            es == view_entries(entries@),
            es.len() == entries@.len(),
            forall|j: int| 0 <= j < es.len() ==> #[trigger] es[j] == (entries@[j].0@, entries@[j].1@),
            forall|j: int| 0 <= j < i ==> es[j].0 != key@,
        decreases entries.len() - i,
    {
        if str_eq(entries[i].0.as_str(), key) {
            return Some(i);
        }
        i = i + 1;
    }
    None
}

/// Looks up the value of the first entry whose key is `key`.
pub fn get_field<'a>(entries: &'a Vec<(String, Json)>, key: &str) -> (r: Option<&'a Json>)
    ensures
        match r {
            Some(v) => get(view_entries(entries@), key@) == Some(v@),
            None => get(view_entries(entries@), key@) is None,
        },
{
    match find_key(entries, key) {
        Some(i) => {
            let ghost es = view_entries(entries@);
            proof {
                lemma_view_entries(entries@);
                assert(i < es.len());
                assert(has_key(es, key@));
                let c = choose|c: int| is_first_key(es, key@, c);
                assert(is_first_key(es, key@, c));
                if c < i {
                } else if i < c {
                }
                assert(c == i);
            }
            Some(&entries[i].1)
        },
        None => None,
    }
}

impl Number {
    /// The number as a `u64`, when it is a non-negative integer.
    pub fn as_u64(&self) -> (r: Option<u64>)
        ensures
            r == uint_value(self@),
    {
        match self {
            Number::PosInt(u) => Some(*u),
            Number::NegInt(i) => if *i >= 0 {
                Some(*i as u64)
            } else {
                None
            },
            Number::Float(_) => None,
        }
    }
}

impl Json {
    /// Whether the value is a JSON object.
    pub fn is_object(&self) -> (r: bool)
        ensures
            r == (self@ is Obj),
    {
        match self {
            Json::Object(_) => true,
            _ => false,
        }
    }

    /// A copy of the whole value.
    #[verifier::loop_isolation(false)]
    pub fn deep_copy(&self) -> (r: Json)
        ensures
            r@ == self@,
        decreases self,
    {
            match self {
            Json::Null => Json::Null,
            Json::Bool(b) => Json::Bool(*b),
            Json::Number(n) => Json::Number(
                match n {
                    Number::PosInt(u) => Number::PosInt(*u),
                    Number::NegInt(i) => Number::NegInt(*i),
                    Number::Float(s) => Number::Float(s.clone()),
                },
            ),
            Json::String(s) => Json::String(s.clone()),
            Json::Array(items) => {
                let mut out: Vec<Json> = Vec::new();
                let mut i: usize = 0;
                while i < items.len()
                    invariant
                        i <= items@.len(),
                        out@.len() == i,
                        forall|j: int| 0 <= j < i ==> #[trigger] out@[j]@ == items@[j]@,
                    decreases items.len() - i,
                {
                    proof {
                        assert(*self == Json::Array(*items));
                        assert(decreases_to!(*self => *items));
                    }
                    let c = items[i].deep_copy();
                    out.push(c);
                    i = i + 1;
                }
                proof {
                    lemma_view_items(out@);
                    lemma_view_items(items@);
                    assert forall|j: int| 0 <= j < out@.len() implies view_items(out@)[j]
                        == view_items(items@)[j] by {
                        assert(out@[j]@ == items@[j]@);
                    }
                }
                assert(view_items(out@) =~= view_items(items@));
                Json::Array(out)
            },
            Json::Object(entries) => {
                let mut out: Vec<(String, Json)> = Vec::new();
                let mut i: usize = 0;
                while i < entries.len()
                    invariant
                        i <= entries@.len(),
                        out@.len() == i,
                        forall|j: int|
                            0 <= j < i ==> (#[trigger] out@[j]).0@ == entries@[j].0@ && out@[j].1@
                                == entries@[j].1@,
                    decreases entries.len() - i,
                {
                    proof {
                        assert(decreases_to!(entries@ => entries@[i as int]));
                        assert(decreases_to!(entries@[i as int] => entries@[i as int].1));
                    }
                    let c = entries[i].1.deep_copy();
                    out.push((entries[i].0.clone(), c));
                    i = i + 1;
                }
                proof {
                    lemma_view_entries(out@);
                    lemma_view_entries(entries@);
                    assert forall|j: int| 0 <= j < out@.len() implies view_entries(out@)[j]
                        == view_entries(entries@)[j] by {
                        assert(out@[j].0@ == entries@[j].0@ && out@[j].1@ == entries@[j].1@);
                    }
                }
                assert(view_entries(out@) =~= view_entries(entries@));
                Json::Object(out)
            },
        }
    }
}

/// A JSON array of strings, in order.
pub fn string_array(items: Vec<String>) -> (r: Json)
    ensures
        r@ == JVal::Arr(Seq::new(items@.len(), |i: int| JVal::Str(items@[i]@))),
{
    let mut out: Vec<Json> = Vec::new();
    let mut i: usize = 0;
    let ghost target = Seq::new(items@.len(), |i: int| JVal::Str(items@[i]@));
    while i < items.len()
        invariant
            i <= items@.len(),
            out@.len() == i,
            target == Seq::new(items@.len(), |i: int| JVal::Str(items@[i]@)),
            forall|j: int| 0 <= j < i ==> (#[trigger] out@[j])@ == JVal::Str(items@[j]@),
        decreases items.len() - i,
    {
        out.push(Json::String(items[i].clone()));
        i = i + 1;
    }
    proof {
        lemma_view_items(out@);
        assert(view_items(out@) =~= target);
    }
    Json::Array(out)
}

} // verus!
