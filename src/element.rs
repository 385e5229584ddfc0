use vstd::prelude::*;
use crate::error::{CompileError, CompileErrorV};
use crate::fake_type::composite::{Array, Constant, Mapping};
use crate::fake_type::{FakeElement, FakeWithFormatElement, FakeWithRangeElement, FakeWithRatioElement};
use crate::fake_type::boolean::Boolean;
use crate::fake_type::internet::{DomainSuffix, FreeEmail, FreeEmailProvider, IP, IPv4, IPv6, MACAddress, Password, SafeEmail, UserAgent, Username};
use crate::fake_type::lorem::{Paragraph, Paragraphs, Sentence, Sentences, Word, Words};
use crate::fake_type::name::{FirstName, LastName, Name, NameWithTitle, Suffix, Title};
use crate::fake_type::number::{Digit, NumberWithFormat};
use crate::generator::{is_outcome, lookup_kind, wf, Gen, Kind, RangedKind, ScalarKind};
use crate::json::{get_field, lemma_view_entries, str_eq, view_entries, JVal, Json};
use crate::order::{lemma_lex_irreflexive, lemma_lex_total, str_lt};
use crate::schema::{
    compile_array, compile_children, compile_constant, compile_formatted, compile_mapping,
    compile_ranged, compile_ratio, compile_scalar, compile_spec, insert_sorted, is_reserved,
    sort_fields, size_field, str_field, uint_field, Reserved,
};

verus! {

/// A compiled generator: one variant per tag.
#[derive(Debug)]
pub enum FakeDefinitionElement {
    Word(Word),
    Words(Words),
    Sentence(Sentence),
    Sentences(Sentences),
    Paragraph(Paragraph),
    Paragraphs(Paragraphs),
    FirstName(FirstName),
    LastName(LastName),
    Title(Title),
    Suffix(Suffix),
    Name(Name),
    NameWithTitle(NameWithTitle),
    Digit(Digit),
    NumberWithFormat(NumberWithFormat),
    Boolean(Boolean),
    FreeEmailProvider(FreeEmailProvider),
    DomainSuffix(DomainSuffix),
    FreeEmail(FreeEmail),
    SafeEmail(SafeEmail),
    Username(Username),
    Password(Password),
    IPv4(IPv4),
    IPv6(IPv6),
    IP(IP),
    MACAddress(MACAddress),
    UserAgent(UserAgent),
    Array(Array),
    Mapping(Mapping),
    Constant(Constant),
}

impl View for FakeDefinitionElement {
    type V = Gen;

    open spec fn view(&self) -> Gen
        decreases self,
    {
        match self {
            FakeDefinitionElement::Word(d) => d@,
            FakeDefinitionElement::Words(d) => d@,
            FakeDefinitionElement::Sentence(d) => d@,
            FakeDefinitionElement::Sentences(d) => d@,
            FakeDefinitionElement::Paragraph(d) => d@,
            FakeDefinitionElement::Paragraphs(d) => d@,
            FakeDefinitionElement::FirstName(d) => d@,
            FakeDefinitionElement::LastName(d) => d@,
            FakeDefinitionElement::Title(d) => d@,
            FakeDefinitionElement::Suffix(d) => d@,
            FakeDefinitionElement::Name(d) => d@,
            FakeDefinitionElement::NameWithTitle(d) => d@,
            FakeDefinitionElement::Digit(d) => d@,
            FakeDefinitionElement::NumberWithFormat(d) => d@,
            FakeDefinitionElement::Boolean(d) => d@,
            FakeDefinitionElement::FreeEmailProvider(d) => d@,
            FakeDefinitionElement::DomainSuffix(d) => d@,
            FakeDefinitionElement::FreeEmail(d) => d@,
            FakeDefinitionElement::SafeEmail(d) => d@,
            FakeDefinitionElement::Username(d) => d@,
            FakeDefinitionElement::Password(d) => d@,
            FakeDefinitionElement::IPv4(d) => d@,
            FakeDefinitionElement::IPv6(d) => d@,
            FakeDefinitionElement::IP(d) => d@,
            FakeDefinitionElement::MACAddress(d) => d@,
            FakeDefinitionElement::UserAgent(d) => d@,
            FakeDefinitionElement::Array(a) => Gen::Array {
                count: a.count,
                element: Box::new((*a.fake_definition_element).view()),
            },
            FakeDefinitionElement::Mapping(m) => Gen::Mapping { fields: view_fields(m.map@) },
            FakeDefinitionElement::Constant(c) => Gen::Constant { value: c.value@ },
        }
    }
}

/// The views of named generators, in order.
pub open spec fn view_fields(fields: Seq<(String, FakeDefinitionElement)>) -> Seq<(Seq<char>, Gen)>
    decreases fields,
{
    if fields.len() == 0 {
        Seq::empty()
    } else {
        let last = fields[fields.len() - 1];
        view_fields(fields.subrange(0, fields.len() - 1)).push((last.0@, last.1.view()))
    }
}

/// The fields view has one entry per field, each the view of the field.
pub proof fn lemma_view_fields(fields: Seq<(String, FakeDefinitionElement)>)
    ensures
        view_fields(fields).len() == fields.len(),
        forall|i: int|
            0 <= i < fields.len() ==> #[trigger] view_fields(fields)[i] == (
            fields[i].0@,
            fields[i].1@,
        ),
    decreases fields.len(),
{
    if fields.len() > 0 {
        let pre = fields.subrange(0, fields.len() - 1);
        let last = fields[fields.len() - 1];
        lemma_view_fields(pre);
        assert(view_fields(fields) == view_fields(pre).push((last.0@, last.1@)));
        assert forall|i: int| 0 <= i < fields.len() implies #[trigger] view_fields(fields)[i]
            == (fields[i].0@, fields[i].1@) by {
            if i < fields.len() - 1 {
                assert(pre[i] == fields[i]);
            }
        }
    } else {
        assert(view_fields(fields) == Seq::<(Seq<char>, Gen)>::empty());
    }
}

/// The mathematical value of a compile result.
pub open spec fn result_view(r: Result<FakeDefinitionElement, CompileError>) -> Result<Gen, CompileErrorV> {
    match r {
        Ok(g) => Ok(g@),
        Err(e) => Err(e@),
    }
}

/// The mathematical value of a list of compiled children.
pub open spec fn fields_result_view(r: Result<Vec<(String, FakeDefinitionElement)>, CompileError>) -> Result<
    Seq<(Seq<char>, Gen)>,
    CompileErrorV,
> {
    match r {
        Ok(v) => Ok(view_fields(v@)),
        Err(e) => Err(e@),
    }
}

/// Once a prefix of the children fails, every longer prefix fails the same way.
proof fn lemma_children_error_persists(
    es: Seq<(Seq<char>, JVal)>,
    reserved: Reserved,
    k: int,
    e: CompileErrorV,
)
    requires
        0 <= k <= es.len(),
        compile_children(es.subrange(0, k), reserved) == Err::<Seq<(Seq<char>, Gen)>, _>(e),
    ensures
        compile_children(es, reserved) == Err::<Seq<(Seq<char>, Gen)>, _>(e),
    decreases es.len() - k,
{
    if k == es.len() {
        assert(es.subrange(0, k) =~= es);
    } else {
        let next = es.subrange(0, k + 1);
        assert(next.subrange(0, k) =~= es.subrange(0, k));
        assert(compile_children(next, reserved) == Err::<Seq<(Seq<char>, Gen)>, _>(e));
        lemma_children_error_persists(es, reserved, k + 1, e);
    }
}

/// Inserting among sorted fields: the fields below the new name stay in front.
pub proof fn lemma_insert_at<V>(s: Seq<(Seq<char>, V)>, e: (Seq<char>, V), p: int)
    requires
        0 <= p <= s.len(),
        forall|j: int| 0 <= j < p ==> crate::order::lex_lt(#[trigger] s[j].0, e.0),
        p < s.len() ==> !crate::order::lex_lt(s[p].0, e.0),
    ensures
        insert_sorted(s, e) == if p == s.len() {
            s.push(e)
        } else if s[p].0 == e.0 {
            s.update(p, e)
        } else {
            s.insert(p, e)
        },
    decreases p,
{
    if p == 0 {
        if s.len() == 0 {
            assert(s.push(e) =~= seq![e]);
        } else {
            lemma_lex_total(e.0, s[0].0);
            if s[0].0 == e.0 {
                assert(s.update(0, e) =~= seq![e] + s.drop_first());
            } else {
                assert(s.insert(0, e) =~= seq![e] + s);
            }
        }
    } else {
        lemma_lex_total(e.0, s[0].0);
        lemma_lex_irreflexive(e.0);
        assert(crate::order::lex_lt(s[0].0, e.0));
        let t = s.drop_first();
        assert forall|j: int| 0 <= j < p - 1 implies crate::order::lex_lt(#[trigger] t[j].0, e.0) by {
            assert(t[j] == s[j + 1]);
        }
        lemma_insert_at(t, e, p - 1);
        if p == s.len() {
            assert(s.push(e) =~= seq![s[0]] + t.push(e));
        } else if s[p].0 == e.0 {
            assert(s.update(p, e) =~= seq![s[0]] + t.update(p - 1, e));
        } else {
            assert(s.insert(p, e) =~= seq![s[0]] + t.insert(p - 1, e));
        }
    }
}

/// Inserts a named generator among fields ordered by name, replacing a field of
/// the same name.
pub fn insert_field(fields: &mut Vec<(String, FakeDefinitionElement)>, key: String, g: FakeDefinitionElement)
    ensures
        view_fields(final(fields)@) == insert_sorted(view_fields(old(fields)@), (key@, g@)),
{
    let ghost s = view_fields(fields@);
    let ghost e = (key@, g@);
    proof {
        lemma_view_fields(fields@);
    }
    let mut p: usize = 0;
    while p < fields.len() && str_lt(fields[p].0.as_str(), key.as_str())
        invariant
            p <= fields@.len(),
            s == view_fields(fields@),
            s.len() == fields@.len(),
            forall|j: int| 0 <= j < s.len() ==> #[trigger] s[j] == (fields@[j].0@, fields@[j].1@),
            e == (key@, g@),
            forall|j: int| 0 <= j < p ==> crate::order::lex_lt(#[trigger] s[j].0, e.0),
        decreases fields.len() - p,
    {
        p = p + 1;
    }
    proof {
        lemma_insert_at(s, e, p as int);
    }
    let same = p < fields.len() && str_eq(fields[p].0.as_str(), key.as_str());
    if same {
        fields.remove(p);
    }
    fields.insert(p, (key, g));
    proof {
        lemma_view_fields(fields@);
        if same {
            assert(view_fields(fields@) =~= s.update(p as int, e));
        } else {
            assert(view_fields(fields@) =~= s.insert(p as int, e));
        }
    }
}

/// Orders named generators by name (a later field replaces an earlier one of
/// the same name).
pub fn sort_by_name(kids: Vec<(String, FakeDefinitionElement)>) -> (r: Vec<(String, FakeDefinitionElement)>)
    ensures
        view_fields(r@) == sort_fields(view_fields(kids@)),
{
    let ghost ks = view_fields(kids@);
    proof {
        lemma_view_fields(kids@);
    }
    let mut rest = kids;
    let mut out: Vec<(String, FakeDefinitionElement)> = Vec::new();
    let mut i: usize = 0;
    let n = rest.len();
    assert(ks.subrange(0, 0) =~= Seq::<(Seq<char>, Gen)>::empty());
    while 0 < rest.len()
        invariant
            n == ks.len(),
            i + rest@.len() == n,
            forall|j: int| i <= j < n ==> #[trigger] ks[j] == (rest@[j - i].0@, rest@[j - i].1@),
            view_fields(out@) == sort_fields(ks.subrange(0, i as int)),
        decreases rest.len(),
    {
        let ghost old_rest = rest@;
        let (k, g) = rest.remove(0);
        let ghost before = ks.subrange(0, i as int);
        assert(ks[i as int] == (old_rest[0].0@, old_rest[0].1@));
        assert(ks[i as int] == (k@, g@));
        assert(forall|j: int| 0 <= j < rest@.len() ==> rest@[j] == old_rest[j + 1]);
        insert_field(&mut out, k, g);
        assert(ks.subrange(0, i + 1).drop_last() =~= before);
        assert(ks.subrange(0, i + 1).last() == ks[i as int]);
        i = i + 1;
    }
    assert(ks.subrange(0, i as int) =~= ks);
    out
}

/// Whether a key is reserved in an object of the given kind.
fn is_reserved_key(key: &str, reserved: Reserved) -> (r: bool)
    ensures
        r == is_reserved(key@, reserved),
{
    match reserved {
        Reserved::Nothing => false,
        Reserved::Tag => str_eq(key, "fake_type"),
        Reserved::TagAndCount => str_eq(key, "fake_type") || str_eq(key, "count"),
    }
}

/// Reads a string field of a node.
fn read_str<'a>(entries: &'a Vec<(String, Json)>, tag: &String, field: &str) -> (r: Result<&'a String, CompileError>)
    ensures
        match r {
            Ok(s) => str_field(view_entries(entries@), tag@, field@) == Ok::<_, CompileErrorV>(s@),
            Err(e) => str_field(view_entries(entries@), tag@, field@) == Err::<Seq<char>, _>(e@),
        },
{
    match get_field(entries, field) {
        None => Err(CompileError::MissingField(tag.clone(), field.to_owned())),
        Some(Json::String(s)) => Ok(s),
        Some(_) => Err(CompileError::TypeMismatch(tag.clone(), field.to_owned())),
    }
}

/// Reads a non-negative integer field of a node.
fn read_uint(entries: &Vec<(String, Json)>, tag: &String, field: &str) -> (r: Result<u64, CompileError>)
    ensures
        match r {
            Ok(u) => uint_field(view_entries(entries@), tag@, field@) == Ok::<_, CompileErrorV>(u),
            Err(e) => uint_field(view_entries(entries@), tag@, field@) == Err::<u64, _>(e@),
        },
{
    match get_field(entries, field) {
        None => Err(CompileError::MissingField(tag.clone(), field.to_owned())),
        Some(Json::Number(n)) => match n.as_u64() {
            Some(u) => Ok(u),
            None => Err(CompileError::TypeMismatch(tag.clone(), field.to_owned())),
        },
        Some(_) => Err(CompileError::TypeMismatch(tag.clone(), field.to_owned())),
    }
}

/// Reads a size field of a node.
fn read_size(entries: &Vec<(String, Json)>, tag: &String, field: &str) -> (r: Result<usize, CompileError>)
    ensures
        match r {
            Ok(u) => size_field(view_entries(entries@), tag@, field@) == Ok::<_, CompileErrorV>(u),
            Err(e) => size_field(view_entries(entries@), tag@, field@) == Err::<usize, _>(e@),
        },
{
    match read_uint(entries, tag, field) {
        Ok(u) => if u > usize::MAX as u64 {
            Err(CompileError::TypeMismatch(tag.clone(), field.to_owned()))
        } else {
            Ok(u as usize)
        },
        Err(e) => Err(e),
    }
}

impl FakeDefinitionElement {
    /// Draws one value from the generator.
    pub fn to_value(&self) -> (r: Json)
        requires
            wf(self@),
        ensures
            is_outcome(self@, r@),
        decreases self,
    {
        match self {
            FakeDefinitionElement::Word(d) => d.to_value(),
            FakeDefinitionElement::Words(d) => d.to_value(),
            FakeDefinitionElement::Sentence(d) => d.to_value(),
            FakeDefinitionElement::Sentences(d) => d.to_value(),
            FakeDefinitionElement::Paragraph(d) => d.to_value(),
            FakeDefinitionElement::Paragraphs(d) => d.to_value(),
            FakeDefinitionElement::FirstName(d) => d.to_value(),
            FakeDefinitionElement::LastName(d) => d.to_value(),
            FakeDefinitionElement::Title(d) => d.to_value(),
            FakeDefinitionElement::Suffix(d) => d.to_value(),
            FakeDefinitionElement::Name(d) => d.to_value(),
            FakeDefinitionElement::NameWithTitle(d) => d.to_value(),
            FakeDefinitionElement::Digit(d) => d.to_value(),
            FakeDefinitionElement::NumberWithFormat(d) => d.to_value(),
            FakeDefinitionElement::Boolean(d) => d.to_value(),
            FakeDefinitionElement::FreeEmailProvider(d) => d.to_value(),
            FakeDefinitionElement::DomainSuffix(d) => d.to_value(),
            FakeDefinitionElement::FreeEmail(d) => d.to_value(),
            FakeDefinitionElement::SafeEmail(d) => d.to_value(),
            FakeDefinitionElement::Username(d) => d.to_value(),
            FakeDefinitionElement::Password(d) => d.to_value(),
            FakeDefinitionElement::IPv4(d) => d.to_value(),
            FakeDefinitionElement::IPv6(d) => d.to_value(),
            FakeDefinitionElement::IP(d) => d.to_value(),
            FakeDefinitionElement::MACAddress(d) => d.to_value(),
            FakeDefinitionElement::UserAgent(d) => d.to_value(),
            FakeDefinitionElement::Array(d) => d.to_value(),
            FakeDefinitionElement::Mapping(d) => d.to_value(),
            FakeDefinitionElement::Constant(d) => d.to_value(),
        }
    }

    /// Compiles a node whose tag takes only `lang`.
    pub fn generate_element(entries: &Vec<(String, Json)>, fake_type: &String, kind: ScalarKind) -> (r: Result<
        FakeDefinitionElement,
        CompileError,
    >)
        ensures
            result_view(r) == compile_scalar(kind, fake_type@, view_entries(entries@)),
    {
        let lang = match read_str(entries, fake_type, "lang") {
            Ok(s) => s.clone(),
            Err(e) => return Err(e),
        };
        let fake_type = fake_type.clone();
        Ok(match kind {
            ScalarKind::Word => FakeDefinitionElement::Word(Word::new(fake_type, lang)),
            ScalarKind::FirstName => FakeDefinitionElement::FirstName(FirstName::new(fake_type, lang)),
            ScalarKind::LastName => FakeDefinitionElement::LastName(LastName::new(fake_type, lang)),
            ScalarKind::Title => FakeDefinitionElement::Title(Title::new(fake_type, lang)),
            ScalarKind::Suffix => FakeDefinitionElement::Suffix(Suffix::new(fake_type, lang)),
            ScalarKind::Name => FakeDefinitionElement::Name(Name::new(fake_type, lang)),
            ScalarKind::NameWithTitle => FakeDefinitionElement::NameWithTitle(NameWithTitle::new(fake_type, lang)),
            ScalarKind::Digit => FakeDefinitionElement::Digit(Digit::new(fake_type, lang)),
            ScalarKind::FreeEmailProvider => FakeDefinitionElement::FreeEmailProvider(FreeEmailProvider::new(fake_type, lang)),
            ScalarKind::DomainSuffix => FakeDefinitionElement::DomainSuffix(DomainSuffix::new(fake_type, lang)),
            ScalarKind::FreeEmail => FakeDefinitionElement::FreeEmail(FreeEmail::new(fake_type, lang)),
            ScalarKind::SafeEmail => FakeDefinitionElement::SafeEmail(SafeEmail::new(fake_type, lang)),
            ScalarKind::Username => FakeDefinitionElement::Username(Username::new(fake_type, lang)),
            ScalarKind::IPv4 => FakeDefinitionElement::IPv4(IPv4::new(fake_type, lang)),
            ScalarKind::IPv6 => FakeDefinitionElement::IPv6(IPv6::new(fake_type, lang)),
            ScalarKind::IP => FakeDefinitionElement::IP(IP::new(fake_type, lang)),
            ScalarKind::MACAddress => FakeDefinitionElement::MACAddress(MACAddress::new(fake_type, lang)),
            ScalarKind::UserAgent => FakeDefinitionElement::UserAgent(UserAgent::new(fake_type, lang)),
        })
    }

    /// Compiles a node whose tag takes `lang`, `min` and `max`.
    pub fn generate_with_range_element(entries: &Vec<(String, Json)>, fake_type: &String, kind: RangedKind) -> (r: Result<
        FakeDefinitionElement,
        CompileError,
    >)
        ensures
            result_view(r) == compile_ranged(kind, fake_type@, view_entries(entries@)),
    {
        let lang = match read_str(entries, fake_type, "lang") {
            Ok(s) => s.clone(),
            Err(e) => return Err(e),
        };
        let min = match read_size(entries, fake_type, "min") {
            Ok(u) => u,
            Err(e) => return Err(e),
        };
        let max = match read_size(entries, fake_type, "max") {
            Ok(u) => u,
            Err(e) => return Err(e),
        };
        let fake_type = fake_type.clone();
        match kind {
            RangedKind::Words => match Words::new(fake_type, lang, min, max) {
                Ok(d) => Ok(FakeDefinitionElement::Words(d)),
                Err(e) => Err(e),
            },
            RangedKind::Sentence => match Sentence::new(fake_type, lang, min, max) {
                Ok(d) => Ok(FakeDefinitionElement::Sentence(d)),
                Err(e) => Err(e),
            },
            RangedKind::Sentences => match Sentences::new(fake_type, lang, min, max) {
                Ok(d) => Ok(FakeDefinitionElement::Sentences(d)),
                Err(e) => Err(e),
            },
            RangedKind::Paragraph => match Paragraph::new(fake_type, lang, min, max) {
                Ok(d) => Ok(FakeDefinitionElement::Paragraph(d)),
                Err(e) => Err(e),
            },
            RangedKind::Paragraphs => match Paragraphs::new(fake_type, lang, min, max) {
                Ok(d) => Ok(FakeDefinitionElement::Paragraphs(d)),
                Err(e) => Err(e),
            },
            RangedKind::Password => match Password::new(fake_type, lang, min, max) {
                Ok(d) => Ok(FakeDefinitionElement::Password(d)),
                Err(e) => Err(e),
            },
        }
    }

    /// Compiles a boolean node: `lang` and `ratio`, the ratio reduced to one byte.
    pub fn generate_with_ratio_element(entries: &Vec<(String, Json)>, fake_type: &String) -> (r: Result<
        FakeDefinitionElement,
        CompileError,
    >)
        ensures
            result_view(r) == compile_ratio(fake_type@, view_entries(entries@)),
    {
        let lang = match read_str(entries, fake_type, "lang") {
            Ok(s) => s.clone(),
            Err(e) => return Err(e),
        };
        let ratio = match read_uint(entries, fake_type, "ratio") {
            Ok(u) => (u % 256) as u8,
            Err(e) => return Err(e),
        };
        Ok(FakeDefinitionElement::Boolean(Boolean::new(fake_type.clone(), lang, ratio)))
    }

    /// Compiles a number-with-format node: `lang` and `format`.
    pub fn generate_with_format_element(entries: &Vec<(String, Json)>, fake_type: &String) -> (r: Result<
        FakeDefinitionElement,
        CompileError,
    >)
        ensures
            result_view(r) == compile_formatted(fake_type@, view_entries(entries@)),
    {
        let lang = match read_str(entries, fake_type, "lang") {
            Ok(s) => s.clone(),
            Err(e) => return Err(e),
        };
        let format = match read_str(entries, fake_type, "format") {
            Ok(s) => s.clone(),
            Err(e) => return Err(e),
        };
        Ok(
            FakeDefinitionElement::NumberWithFormat(
                NumberWithFormat::new(fake_type.clone(), lang, format),
            ),
        )
    }

    /// Compiles a constant node: its `value`, unchanged.
    pub fn generate_constant(entries: &Vec<(String, Json)>, fake_type: &String) -> (r: Result<
        FakeDefinitionElement,
        CompileError,
    >)
        ensures
            result_view(r) == compile_constant(fake_type@, view_entries(entries@)),
    {
        match get_field(entries, "value") {
            None => Err(CompileError::MissingField(fake_type.clone(), "value".to_owned())),
            Some(v) => Ok(
                FakeDefinitionElement::Constant(Constant::new(fake_type.clone(), v.deep_copy())),
            ),
        }
    }

    /// Compiles an array node: `count`, then exactly one nested generator.
    pub fn generate_array(entries: &Vec<(String, Json)>, fake_type: &String) -> (r: Result<
        FakeDefinitionElement,
        CompileError,
    >)
        ensures
            result_view(r) == compile_array(fake_type@, view_entries(entries@)),
        decreases entries, 1int,
    {
        let count = match read_size(entries, fake_type, "count") {
            Ok(u) => u,
            Err(e) => return Err(e),
        };
        let mut kids = match compile_entries(entries, Reserved::TagAndCount) {
            Ok(k) => k,
            Err(e) => return Err(e),
        };
        proof {
            lemma_view_fields(kids@);
        }
        if kids.len() == 0 {
            Err(CompileError::EmptyComposite(fake_type.clone()))
        } else if kids.len() > 1 {
            Err(CompileError::AmbiguousTemplate(fake_type.clone()))
        } else {
            let (_, element) = kids.remove(0);
            Ok(FakeDefinitionElement::Array(Array::new(fake_type.clone(), count, Box::new(element))))
        }
    }

    /// Compiles a map node: every nested generator, ordered by name.
    pub fn generate_map(entries: &Vec<(String, Json)>, fake_type: &String) -> (r: Result<
        FakeDefinitionElement,
        CompileError,
    >)
        ensures
            result_view(r) == compile_mapping(fake_type@, view_entries(entries@)),
        decreases entries, 1int,
    {
        let kids = match compile_entries(entries, Reserved::Tag) {
            Ok(k) => k,
            Err(e) => return Err(e),
        };
        proof {
            lemma_view_fields(kids@);
        }
        if kids.len() == 0 {
            Err(CompileError::EmptyComposite(fake_type.clone()))
        } else {
            Ok(FakeDefinitionElement::Mapping(Mapping::new(fake_type.clone(), kids)))
        }
    }

    /// Compiles one schema node into a generator; the first error anywhere in
    /// the node aborts.
    pub fn generate(fake_definition_element_value: &Json) -> (r: Result<
        FakeDefinitionElement,
        CompileError,
    >)
        ensures
            result_view(r) == compile_spec(fake_definition_element_value@),
        decreases fake_definition_element_value, 2int,
    {
        let entries = match fake_definition_element_value {
            Json::Object(m) => m,
            _ => return Err(CompileError::StructuralError),
        };
        let tag = match get_field(entries, "fake_type") {
            Some(Json::String(s)) => s,
            _ => return Err(CompileError::MissingOrInvalidTag),
        };
        match lookup_kind(tag.as_str()) {
            None => Err(CompileError::UnknownTag(tag.clone())),
            Some(Kind::Scalar(k)) => Self::generate_element(entries, tag, k),
            Some(Kind::Ranged(k)) => Self::generate_with_range_element(entries, tag, k),
            Some(Kind::Ratio) => Self::generate_with_ratio_element(entries, tag),
            Some(Kind::Formatted) => Self::generate_with_format_element(entries, tag),
            Some(Kind::Constant) => Self::generate_constant(entries, tag),
            Some(Kind::Array) => Self::generate_array(entries, tag),
            Some(Kind::Mapping) => Self::generate_map(entries, tag),
        }
    }
}

/// Compiles the nested generators of an object in order, skipping reserved
/// keys; the first error aborts.
pub fn compile_entries(entries: &Vec<(String, Json)>, reserved: Reserved) -> (r: Result<
    Vec<(String, FakeDefinitionElement)>,
    CompileError,
>)
    ensures
        fields_result_view(r) == compile_children(view_entries(entries@), reserved),
    decreases entries, 0int,
{
    let ghost es = view_entries(entries@);
    proof {
        lemma_view_entries(entries@);
        assert(es.subrange(0, 0) =~= Seq::<(Seq<char>, JVal)>::empty());
    }
    let mut out: Vec<(String, FakeDefinitionElement)> = Vec::new();
    let mut i: usize = 0;
    while i < entries.len()
        invariant
            i <= entries@.len(),
            es == view_entries(entries@),
            es.len() == entries@.len(),
            forall|j: int| 0 <= j < es.len() ==> #[trigger] es[j] == (entries@[j].0@, entries@[j].1@),
            compile_children(es.subrange(0, i as int), reserved) == Ok::<_, CompileErrorV>(
                view_fields(out@),
            ),
        decreases entries.len() - i,
    {
        let ghost next = es.subrange(0, i + 1);
        assert(next.subrange(0, i as int) =~= es.subrange(0, i as int));
        assert(next[i as int] == es[i as int]);
        if !is_reserved_key(entries[i].0.as_str(), reserved) {
            proof {
                assert(decreases_to!(entries@ => entries@[i as int]));
            }
            match FakeDefinitionElement::generate(&entries[i].1) {
                Ok(g) => {
                    let ghost before = out@;
                    out.push((entries[i].0.clone(), g));
                    assert(out@.subrange(0, before.len() as int) =~= before);
                },
                Err(e) => {
                    proof {
                        lemma_children_error_persists(es, reserved, i + 1, e@);
                    }
                    return Err(e);
                },
            }
        }
        i = i + 1;
    }
    assert(es.subrange(0, i as int) =~= es);
    Ok(out)
}

} // verus!
