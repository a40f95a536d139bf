//! TOML documents as plain values: what the `toml` crate parses from a
//! configuration file, and what it renders back.

use vstd::prelude::*;

verus! {

#[verifier::external_type_specification]
#[verifier::external_body]
pub struct ExTomlValue(toml::Value);

/// A TOML value, variant for variant as `toml::Value` has them. A float and
/// a date-time are held as the text that TOML writes for them.
pub enum TomlValue {
    Text(String),
    Integer(i64),
    Float(String),
    Boolean(bool),
    Datetime(String),
    Array(Vec<TomlValue>),
    Table(Vec<(String, TomlValue)>),
}

/// A TOML value as plain values.
pub enum TomlView {
    Text(Seq<char>),
    Integer(int),
    Float(Seq<char>),
    Boolean(bool),
    Datetime(Seq<char>),
    Array(Seq<TomlView>),
    Table(Seq<(Seq<char>, TomlView)>),
}

pub open spec fn toml_view(v: TomlValue) -> TomlView
    decreases v,
{
    match v {
        TomlValue::Text(s) => TomlView::Text(s@),
        TomlValue::Integer(n) => TomlView::Integer(n as int),
        TomlValue::Float(s) => TomlView::Float(s@),
        TomlValue::Boolean(b) => TomlView::Boolean(b),
        TomlValue::Datetime(s) => TomlView::Datetime(s@),
        TomlValue::Array(items) => TomlView::Array(toml_views(items@)),
        TomlValue::Table(entries) => TomlView::Table(toml_entry_views(entries@)),
    }
}

pub open spec fn toml_views(s: Seq<TomlValue>) -> Seq<TomlView>
    decreases s,
{
    if s.len() == 0 {
        Seq::empty()
    } else {
        toml_views(s.subrange(0, s.len() - 1)).push(toml_view(s[s.len() - 1]))
    }
}

pub open spec fn toml_entry_views(s: Seq<(String, TomlValue)>) -> Seq<(Seq<char>, TomlView)>
    decreases s,
{
    if s.len() == 0 {
        Seq::empty()
    } else {
        toml_entry_views(s.subrange(0, s.len() - 1)).push((s[s.len() - 1].0@, toml_view(s[s.len() - 1].1)))
    }
}


proof fn lemma_views_push(s: Seq<TomlValue>, x: TomlValue)
    ensures
        toml_views(s.push(x)) == toml_views(s).push(toml_view(x)),
{
    assert(s.push(x).subrange(0, s.len() as int) =~= s);
}

proof fn lemma_entry_views_push(s: Seq<(String, TomlValue)>, x: (String, TomlValue))
    ensures
        toml_entry_views(s.push(x)) == toml_entry_views(s).push((x.0@, toml_view(x.1))),
{
    assert(s.push(x).subrange(0, s.len() as int) =~= s);
}

/// A copy of a TOML value.
pub fn clone_toml(v: &TomlValue) -> (r: TomlValue)
    ensures
        toml_view(r) == toml_view(*v),
    decreases v,
{
    match v {
        TomlValue::Text(s) => TomlValue::Text(s.clone()),
        TomlValue::Integer(n) => TomlValue::Integer(*n),
        TomlValue::Float(s) => TomlValue::Float(s.clone()),
        TomlValue::Boolean(b) => TomlValue::Boolean(*b),
        TomlValue::Datetime(s) => TomlValue::Datetime(s.clone()),
        TomlValue::Array(items) => {
            let mut out: Vec<TomlValue> = Vec::new();
            let mut i: usize = 0;
            while i < items.len()
                invariant
                    i <= items@.len(),
                    *v == TomlValue::Array(*items),
                    toml_views(out@) == toml_views(items@.subrange(0, i as int)),
                decreases items@.len() - i,
            {
                proof {
                    assert(decreases_to!(*v => (*v)->Array_0));
                    assert(decreases_to!(*items => items@));
                    assert(decreases_to!(items@ => items@[i as int]));
                }
                let c = clone_toml(&items[i]);
                proof {
                    lemma_views_push(out@, c);
                    lemma_views_push(items@.subrange(0, i as int), items@[i as int]);
                    assert(items@.subrange(0, i as int).push(items@[i as int]) =~= items@.subrange(0, i + 1));
                }
                out.push(c);
                i = i + 1;
            }
            assert(items@.subrange(0, items@.len() as int) =~= items@);
            TomlValue::Array(out)
        },
        TomlValue::Table(entries) => {
            let mut out: Vec<(String, TomlValue)> = Vec::new();
            let mut i: usize = 0;
            while i < entries.len()
                invariant
                    i <= entries@.len(),
                    *v == TomlValue::Table(*entries),
                    toml_entry_views(out@) == toml_entry_views(entries@.subrange(0, i as int)),
                decreases entries@.len() - i,
            {
                proof {
                    assert(decreases_to!(*v => (*v)->Table_0));
                    assert(decreases_to!(*entries => entries@));
                    assert(decreases_to!(entries@ => entries@[i as int]));
                    assert(decreases_to!(entries@[i as int] => entries@[i as int].1));
                }
                let c = (entries[i].0.clone(), clone_toml(&entries[i].1));
                proof {
                    lemma_entry_views_push(out@, c);
                    lemma_entry_views_push(entries@.subrange(0, i as int), entries@[i as int]);
                    assert(entries@.subrange(0, i as int).push(entries@[i as int]) =~= entries@.subrange(0, i + 1));
                }
                out.push(c);
                i = i + 1;
            }
            assert(entries@.subrange(0, entries@.len() as int) =~= entries@);
            TomlValue::Table(out)
        },
    }
}

/// The length of the views, and each view at its place.
pub proof fn lemma_toml_views_index(s: Seq<TomlValue>)
    ensures
        toml_views(s).len() == s.len(),
        forall|k: int| 0 <= k < s.len() ==> #[trigger] toml_views(s)[k] == toml_view(s[k]),
    decreases s.len(),
{
    if s.len() > 0 {
        lemma_toml_views_index(s.subrange(0, s.len() - 1));
    }
}

/// The length of the entry views, and each entry's view at its place.
pub proof fn lemma_toml_entry_views_index(s: Seq<(String, TomlValue)>)
    ensures
        toml_entry_views(s).len() == s.len(),
        forall|k: int| 0 <= k < s.len() ==> #[trigger] toml_entry_views(s)[k] == (s[k].0@, toml_view(s[k].1)),
    decreases s.len(),
{
    if s.len() > 0 {
        lemma_toml_entry_views_index(s.subrange(0, s.len() - 1));
    }
}

/// No key of the table occurs twice.
pub open spec fn keys_unique(s: Seq<(Seq<char>, TomlView)>) -> bool {
    forall|i: int, j: int| 0 <= i < j < s.len() ==> s[i].0 != s[j].0
}

/// No key of the document occurs twice, nor does a key of a table directly
/// under it.
pub open spec fn document_keys_unique(s: Seq<(Seq<char>, TomlView)>) -> bool {
    &&& keys_unique(s)
    &&& forall|i: int|
        0 <= i < s.len() ==> ((#[trigger] s[i]).1 matches TomlView::Table(t) ==> keys_unique(t))
}

/// The top-level entries that `toml` parses from a document's text, or
/// `None` where the text is not a TOML document.
pub uninterp spec fn toml_document(raw: Seq<char>) -> Option<Seq<(Seq<char>, TomlView)>>;

/// The text that `toml` renders for a document's top-level entries, or
/// `None` where it cannot render them.
pub uninterp spec fn toml_rendering(entries: Seq<(Seq<char>, TomlView)>) -> Option<Seq<char>>;

/// A parsed `toml::Value` as the library's value, variant for variant.
#[verifier::external_body]
fn from_toml(v: toml::Value) -> TomlValue {
    match v {
        toml::Value::String(s) => TomlValue::Text(s),
        toml::Value::Integer(n) => TomlValue::Integer(n),
        toml::Value::Float(x) => TomlValue::Float(toml::Value::Float(x).to_string()),
        toml::Value::Boolean(b) => TomlValue::Boolean(b),
        toml::Value::Datetime(d) => TomlValue::Datetime(d.to_string()),
        toml::Value::Array(items) => TomlValue::Array(items.into_iter().map(from_toml).collect()),
        toml::Value::Table(t) => TomlValue::Table(t.into_iter().map(|(k, x)| (k, from_toml(x))).collect()),
    }
}

/// The library's value as a `toml::Value`, variant for variant; `None` where
/// the text of a float or a date-time does not read back.
#[verifier::external_body]
fn to_toml(v: &TomlValue) -> Option<toml::Value> {
    Some(match v {
        TomlValue::Text(s) => toml::Value::String(s.clone()),
        TomlValue::Integer(n) => toml::Value::Integer(*n),
        TomlValue::Float(s) => s.parse::<toml::Value>().ok()?,
        TomlValue::Boolean(b) => toml::Value::Boolean(*b),
        TomlValue::Datetime(s) => toml::Value::Datetime(s.parse().ok()?),
        TomlValue::Array(items) => toml::Value::Array(items.iter().map(to_toml).collect::<Option<Vec<_>>>()?),
        TomlValue::Table(t) => to_toml_table(t)?,
    })
}

/// Entries as a `toml::Value::Table`, each value converted by `to_toml`.
#[verifier::external_body]
fn to_toml_table(entries: &Vec<(String, TomlValue)>) -> Option<toml::Value> {
    Some(toml::Value::Table(entries.iter().map(|(k, x)| Some((k.clone(), to_toml(x)?))).collect::<Option<_>>()?))
}

/// Parses a document with `toml` (`str::parse::<toml::Table>`). The result
/// is named; beside the name stands what a `toml::Table` is by its type: a
/// map, in which no key occurs twice, nor in a table under it.
#[verifier::external_body]
pub(crate) fn parse_toml_document(raw: &str) -> (r: Option<Vec<(String, TomlValue)>>)
    ensures
        r is Some <==> toml_document(raw@) is Some,
        r matches Some(e) ==> toml_document(raw@) == Some(toml_entry_views(e@))
            && document_keys_unique(toml_entry_views(e@)),
{
    let table = raw.parse::<toml::Table>().ok()?;
    Some(table.into_iter().map(|(k, v)| (k, from_toml(v))).collect())
}

/// Renders entries as a TOML document with `toml::to_string_pretty`. The
/// result is named; nothing more is stated of it.
#[verifier::external_body]
pub(crate) fn render_toml_document(entries: &Vec<(String, TomlValue)>) -> (r: Option<String>)
    ensures
        r is Some <==> toml_rendering(toml_entry_views(entries@)) is Some,
        r matches Some(text) ==> toml_rendering(toml_entry_views(entries@)) == Some(text@),
{
    toml::to_string_pretty(&to_toml_table(entries)?).ok()
}

} // verus!
