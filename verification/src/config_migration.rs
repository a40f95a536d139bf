//! Migration of a runtime configuration document: legacy keys are carried
//! over to their canonical names, the legacy gateway bind address is split
//! into host and port, and the gateway's network mode is inferred.

use vstd::prelude::*;

use crate::runtime::{infer_gateway_network_mode, network_mode_for};
use crate::text::{chars_of, concat3, owned, str_eq, string_from_chars, strs};
use crate::toml_doc::{
    clone_toml, lemma_toml_entry_views_index, lemma_toml_views_index, parse_toml_document,
    render_toml_document, document_keys_unique, keys_unique, toml_document, toml_entry_views,
    toml_rendering, toml_view, toml_views, TomlValue, TomlView,
};

verus! {

// ---------------------------------------------------------------------
// The document

/// A value of the configuration, as the migration reads it.
pub enum ConfigValue {
    Text(String),
    Boolean(bool),
    Integer(i64),
    /// An array of strings.
    TextList(Vec<String>),
    /// Any other value, kept as TOML holds it.
    Encoded(TomlValue),
}

/// A configuration value as plain values.
pub enum ValueView {
    Text(Seq<char>),
    Boolean(bool),
    Integer(int),
    TextList(Seq<Seq<char>>),
    Encoded(TomlView),
}

impl View for ConfigValue {
    type V = ValueView;

    open spec fn view(&self) -> ValueView {
        match self {
            ConfigValue::Text(s) => ValueView::Text(s@),
            ConfigValue::Boolean(b) => ValueView::Boolean(*b),
            ConfigValue::Integer(n) => ValueView::Integer(*n as int),
            ConfigValue::TextList(v) => ValueView::TextList(strs(v@)),
            ConfigValue::Encoded(t) => ValueView::Encoded(toml_view(*t)),
        }
    }
}

/// A table of the configuration: keys with their values.
pub struct ConfigTable {
    pub entries: Vec<(String, ConfigValue)>,
}

/// A top-level entry of the configuration: a section or a bare value.
pub enum ConfigItem {
    Section(ConfigTable),
    Value(ConfigValue),
}

/// A top-level entry as plain values.
pub enum ItemView {
    Section(Map<Seq<char>, ValueView>),
    Value(ValueView),
}

/// A whole configuration document.
pub struct ConfigDocument {
    pub entries: Vec<(String, ConfigItem)>,
}

/// The map that a list of distinct keys with values stands for.
pub open spec fn pairs_map<V>(s: Seq<(Seq<char>, V)>) -> Map<Seq<char>, V>
    decreases s.len(),
{
    if s.len() == 0 {
        Map::empty()
    } else {
        pairs_map(s.drop_last()).insert(s.last().0, s.last().1)
    }
}

/// No key occurs twice.
pub open spec fn keys_distinct<V>(s: Seq<(Seq<char>, V)>) -> bool {
    forall|i: int, j: int| 0 <= i < j < s.len() ==> s[i].0 != s[j].0
}

pub open spec fn table_pairs(e: Seq<(String, ConfigValue)>) -> Seq<(Seq<char>, ValueView)> {
    e.map_values(|p: (String, ConfigValue)| (p.0@, p.1@))
}

pub open spec fn item_view(i: ConfigItem) -> ItemView {
    match i {
        ConfigItem::Section(t) => ItemView::Section(t@),
        ConfigItem::Value(v) => ItemView::Value(v@),
    }
}

pub open spec fn doc_pairs(e: Seq<(String, ConfigItem)>) -> Seq<(Seq<char>, ItemView)> {
    e.map_values(|p: (String, ConfigItem)| (p.0@, item_view(p.1)))
}

impl View for ConfigTable {
    type V = Map<Seq<char>, ValueView>;

    open spec fn view(&self) -> Map<Seq<char>, ValueView> {
        pairs_map(table_pairs(self.entries@))
    }
}

impl ConfigTable {
    /// Keys are unique.
    pub open spec fn wf(&self) -> bool {
        keys_distinct(table_pairs(self.entries@))
    }
}

impl View for ConfigDocument {
    type V = Map<Seq<char>, ItemView>;

    open spec fn view(&self) -> Map<Seq<char>, ItemView> {
        pairs_map(doc_pairs(self.entries@))
    }
}

/// A section's keys are unique; a bare value has none.
pub open spec fn section_wf(item: ConfigItem) -> bool {
    match item {
        ConfigItem::Section(t) => t.wf(),
        ConfigItem::Value(_) => true,
    }
}

impl ConfigDocument {
    /// Top-level keys are unique, and so are the keys of each section.
    pub open spec fn wf(&self) -> bool {
        &&& keys_distinct(doc_pairs(self.entries@))
        &&& forall|i: int| 0 <= i < self.entries@.len() ==> section_wf(#[trigger] self.entries@[i].1)
    }
}

proof fn lemma_pairs_map_at<V>(s: Seq<(Seq<char>, V)>, i: int)
    requires
        keys_distinct(s),
        0 <= i < s.len(),
    ensures
        pairs_map(s).contains_key(s[i].0),
        pairs_map(s)[s[i].0] == s[i].1,
    decreases s.len(),
{
    if i < s.len() - 1 {
        lemma_pairs_map_at(s.drop_last(), i);
        assert(s.drop_last()[i] == s[i]);
    }
}

proof fn lemma_pairs_map_absent<V>(s: Seq<(Seq<char>, V)>, k: Seq<char>)
    requires
        forall|i: int| 0 <= i < s.len() ==> s[i].0 != k,
    ensures
        !pairs_map(s).contains_key(k),
    decreases s.len(),
{
    if s.len() > 0 {
        lemma_pairs_map_absent(s.drop_last(), k);
    }
}

proof fn lemma_pairs_map_update<V>(s: Seq<(Seq<char>, V)>, i: int, v: V)
    requires
        keys_distinct(s),
        0 <= i < s.len(),
    ensures
        keys_distinct(s.update(i, (s[i].0, v))),
        pairs_map(s.update(i, (s[i].0, v))) == pairs_map(s).insert(s[i].0, v),
    decreases s.len(),
{
    let t = s.update(i, (s[i].0, v));
    if i == s.len() - 1 {
        assert(t.drop_last() =~= s.drop_last());
    } else {
        lemma_pairs_map_update(s.drop_last(), i, v);
        assert(t.drop_last() =~= s.drop_last().update(i, (s[i].0, v)));
        assert(s.last().0 != s[i].0);
        assert(pairs_map(t) =~= pairs_map(s).insert(s[i].0, v));
    }
}

proof fn lemma_pairs_push_distinct<V>(s: Seq<(Seq<char>, V)>, p: (Seq<char>, V))
    requires
        keys_distinct(s),
        !pairs_map(s).contains_key(p.0),
    ensures
        keys_distinct(s.push(p)),
{
    assert forall|i: int| 0 <= i < s.len() implies s[i].0 != p.0 by {
        if s[i].0 == p.0 {
            lemma_pairs_map_at(s, i);
        }
    }
}

/// The position of the entry named `key`.
fn find_entry<V>(entries: &Vec<(String, V)>, key: &str) -> (r: Option<usize>)
    ensures
        r matches Some(i) ==> i < entries@.len() && entries@[i as int].0@ == key@,
        r is None ==> forall|i: int| 0 <= i < entries@.len() ==> entries@[i].0@ != key@,
{
    let mut i: usize = 0;
    while i < entries.len()
        invariant
            i <= entries@.len(),
            forall|k: int| 0 <= k < i ==> entries@[k].0@ != key@,
        decreases entries@.len() - i,
    {
        if str_eq(entries[i].0.as_str(), key) {
            return Some(i);
        }
        i = i + 1;
    }
    None
}

/// The section named `name`, when the document holds one by that name.
pub open spec fn section_of(doc: Map<Seq<char>, ItemView>, name: Seq<char>) -> Option<Map<Seq<char>, ValueView>> {
    if doc.contains_key(name) {
        match doc[name] {
            ItemView::Section(t) => Some(t),
            ItemView::Value(_) => None,
        }
    } else {
        None
    }
}

/// Takes the section named `name` out of the document: its position and
/// its table, the document keeping a placeholder there until `put_section`.
fn take_section(doc: &mut ConfigDocument, name: &str) -> (r: Option<(usize, ConfigTable)>)
    requires
        old(doc).wf(),
    ensures
        r is None ==> section_of(old(doc)@, name@) is None && final(doc).entries@ == old(doc).entries@,
        r matches Some((i, t)) ==> {
            &&& section_of(old(doc)@, name@) == Some(t@)
            &&& t.wf()
            &&& i < old(doc).entries@.len()
            &&& old(doc).entries@[i as int].0@ == name@
            &&& old(doc).entries@[i as int].1 == ConfigItem::Section(t)
            &&& final(doc).entries@ == old(doc).entries@.update(
                i as int,
                (old(doc).entries@[i as int].0, ConfigItem::Value(ConfigValue::Boolean(false))),
            )
        },
{
    let ghost pairs = doc_pairs(doc.entries@);
    match find_entry(&doc.entries, name) {
        None => {
            proof {
                assert forall|k: int| 0 <= k < pairs.len() implies pairs[k].0 != name@ by {}
                lemma_pairs_map_absent(pairs, name@);
            }
            None
        },
        Some(i) => {
            proof {
                lemma_pairs_map_at(pairs, i as int);
            }
            let (key, item) = doc.entries.remove(i);
            match item {
                ConfigItem::Section(t) => {
                    assert(old(doc).entries@[i as int].1 == ConfigItem::Section(t));
                    doc.entries.insert(i, (key, ConfigItem::Value(ConfigValue::Boolean(false))));
                    assert(doc.entries@ =~= old(doc).entries@.update(
                        i as int,
                        (old(doc).entries@[i as int].0, ConfigItem::Value(ConfigValue::Boolean(false))),
                    ));
                    Some((i, t))
                },
                ConfigItem::Value(v) => {
                    doc.entries.insert(i, (key, ConfigItem::Value(v)));
                    assert(doc.entries@ =~= old(doc).entries@);
                    None
                },
            }
        },
    }
}

/// Puts a section back where `take_section` took it from.
fn put_section(doc: &mut ConfigDocument, i: usize, t: ConfigTable, Ghost(orig): Ghost<ConfigDocument>)
    requires
        orig.wf(),
        t.wf(),
        i < orig.entries@.len(),
        orig.entries@[i as int].1 is Section,
        old(doc).entries@ == orig.entries@.update(
            i as int,
            (orig.entries@[i as int].0, ConfigItem::Value(ConfigValue::Boolean(false))),
        ),
    ensures
        final(doc).wf(),
        final(doc)@ == orig@.insert(orig.entries@[i as int].0@, ItemView::Section(t@)),
{
    let (key, _placeholder) = doc.entries.remove(i);
    let ghost tv = t@;
    doc.entries.insert(i, (key, ConfigItem::Section(t)));
    let ghost upd = orig.entries@.update(i as int, (orig.entries@[i as int].0, ConfigItem::Section(t)));
    assert(doc.entries@ =~= upd);
    proof {
        let pairs = doc_pairs(orig.entries@);
        lemma_pairs_map_update(pairs, i as int, ItemView::Section(tv));
        assert(doc_pairs(upd) =~= pairs.update(i as int, (pairs[i as int].0, ItemView::Section(tv))));
        assert forall|k: int| 0 <= k < doc.entries@.len() implies section_wf(#[trigger] doc.entries@[k].1) by {
            if k != i {
                assert(doc.entries@[k] == orig.entries@[k]);
            }
        }
    }
}

/// The value under `key` in a table.
fn table_get<'a>(t: &'a ConfigTable, key: &str) -> (r: Option<&'a ConfigValue>)
    requires
        t.wf(),
    ensures
        r is None ==> !t@.contains_key(key@),
        r matches Some(v) ==> t@.contains_key(key@) && t@[key@] == v@,
{
    let ghost pairs = table_pairs(t.entries@);
    match find_entry(&t.entries, key) {
        None => {
            proof {
                assert forall|k: int| 0 <= k < pairs.len() implies pairs[k].0 != key@ by {}
                lemma_pairs_map_absent(pairs, key@);
            }
            None
        },
        Some(i) => {
            proof {
                lemma_pairs_map_at(pairs, i as int);
            }
            Some(&t.entries[i].1)
        },
    }
}

/// The value under `section.key`, when the document holds one there.
pub open spec fn setting_of(doc: Map<Seq<char>, ItemView>, section: Seq<char>, key: Seq<char>) -> Option<ValueView> {
    match section_of(doc, section) {
        Some(t) => if t.contains_key(key) {
            Some(t[key])
        } else {
            None
        },
        None => None,
    }
}

/// Looks up the value under `section.key`.
pub fn setting<'a>(doc: &'a ConfigDocument, section: &str, key: &str) -> (r: Option<&'a ConfigValue>)
    requires
        doc.wf(),
    ensures
        r matches Some(v) ==> setting_of(doc@, section@, key@) == Some(v@),
        r is None ==> setting_of(doc@, section@, key@) is None,
{
    let ghost pairs = doc_pairs(doc.entries@);
    match find_entry(&doc.entries, section) {
        None => {
            proof {
                assert forall|k: int| 0 <= k < pairs.len() implies pairs[k].0 != section@ by {}
                lemma_pairs_map_absent(pairs, section@);
            }
            None
        },
        Some(i) => {
            proof {
                lemma_pairs_map_at(pairs, i as int);
            }
            match &doc.entries[i].1 {
                ConfigItem::Section(t) => {
                    assert(section_wf(doc.entries@[i as int].1));
                    table_get(t, key)
                },
                ConfigItem::Value(_) => None,
            }
        },
    }
}

/// Adds `key` to a table that lacks it.
fn table_add(t: &mut ConfigTable, key: String, v: ConfigValue)
    requires
        old(t).wf(),
        !old(t)@.contains_key(key@),
    ensures
        final(t).wf(),
        final(t)@ == old(t)@.insert(key@, v@),
{
    let ghost before = table_pairs(t.entries@);
    let ghost p = (key@, v@);
    t.entries.push((key, v));
    assert(table_pairs(t.entries@) =~= before.push(p));
    proof {
        lemma_pairs_push_distinct(before, p);
        assert(before.push(p).drop_last() =~= before);
    }
}

// ---------------------------------------------------------------------
// Legacy keys

/// What a migration found: the legacy key, the canonical key, and what
/// was done about it.
pub struct RuntimeConfigMigrationIssue {
    pub legacy_key: String,
    pub canonical_key: String,
    pub action: String,
}

pub type IssueView = (Seq<char>, Seq<char>, Seq<char>);

pub open spec fn issues_view(v: Seq<RuntimeConfigMigrationIssue>) -> Seq<IssueView> {
    v.map_values(|i: RuntimeConfigMigrationIssue| (i.legacy_key@, i.canonical_key@, i.action@))
}

/// Which legacy values a key accepts: single values (strings and
/// booleans), or lists (arrays, and a string standing for one).
#[derive(PartialEq, Eq, Structural, Clone, Copy, Debug)]
pub enum LegacyKind {
    Single,
    List,
}

pub open spec fn accepts(kind: LegacyKind, v: ValueView) -> bool {
    match kind {
        LegacyKind::Single => v is Text || v is Boolean,
        LegacyKind::List => v is TextList || v matches ValueView::Encoded(TomlView::Array(_)) || v is Text,
    }
}

/// The canonical value of a legacy one: a string becomes a one-element
/// list under the keys that hold lists.
pub open spec fn rewritten(v: ValueView, canonical: Seq<char>) -> ValueView {
    match v {
        ValueView::Text(s) => if canonical == "allowed_origins"@ || canonical == "fallback_chain"@ {
            ValueView::TextList(seq![s])
        } else {
            v
        },
        _ => v,
    }
}

/// The document after moving `section.legacy` to `section.canonical`, and
/// the issue it records. A legacy key whose value is not accepted, or a
/// missing one, changes nothing; a canonical key already present is kept.
pub open spec fn migrate_key_spec(
    doc: Map<Seq<char>, ItemView>,
    section: Seq<char>,
    legacy: Seq<char>,
    canonical: Seq<char>,
    kind: LegacyKind,
) -> (Map<Seq<char>, ItemView>, Seq<IssueView>) {
    match section_of(doc, section) {
        Some(t) => if t.contains_key(legacy) && accepts(kind, t[legacy]) {
            let present = t.contains_key(canonical);
            let t2 = if present {
                t
            } else {
                t.insert(canonical, rewritten(t[legacy], canonical))
            };
            (
                doc.insert(section, ItemView::Section(t2)),
                seq![
                    (
                        section + "."@ + legacy,
                        section + "."@ + canonical,
                        if present {
                            "legacy key detected; canonical key already present"@
                        } else {
                            "canonical key populated from legacy value"@
                        },
                    ),
                ],
            )
        } else {
            (doc, seq![])
        },
        None => (doc, seq![]),
    }
}

fn accepts_value(kind: LegacyKind, v: &ConfigValue) -> (r: bool)
    ensures
        r == accepts(kind, v@),
{
    match kind {
        LegacyKind::Single => match v {
            ConfigValue::Text(_) | ConfigValue::Boolean(_) => true,
            _ => false,
        },
        LegacyKind::List => match v {
            ConfigValue::TextList(_) | ConfigValue::Text(_) => true,
            ConfigValue::Encoded(TomlValue::Array(_)) => true,
            _ => false,
        },
    }
}

fn clone_value(v: &ConfigValue) -> (r: ConfigValue)
    ensures
        r@ == v@,
{
    match v {
        ConfigValue::Text(s) => ConfigValue::Text(s.clone()),
        ConfigValue::Boolean(b) => ConfigValue::Boolean(*b),
        ConfigValue::Integer(n) => ConfigValue::Integer(*n),
        ConfigValue::TextList(l) => ConfigValue::TextList(crate::text::clone_strings(l)),
        ConfigValue::Encoded(t) => ConfigValue::Encoded(clone_toml(t)),
    }
}

fn rewrite_value(v: ConfigValue, canonical: &str) -> (r: ConfigValue)
    ensures
        r@ == rewritten(v@, canonical@),
{
    match v {
        ConfigValue::Text(s) => {
            if str_eq(canonical, "allowed_origins") || str_eq(canonical, "fallback_chain") {
                let mut l: Vec<String> = Vec::new();
                let ghost sv = s@;
                l.push(s);
                assert(strs(l@) =~= seq![sv]);
                ConfigValue::TextList(l)
            } else {
                ConfigValue::Text(s)
            }
        },
        other => other,
    }
}

fn push_issue(issues: &mut Vec<RuntimeConfigMigrationIssue>, legacy_key: String, canonical_key: String, action: &str)
    ensures
        issues_view(final(issues)@) == issues_view(old(issues)@).push((legacy_key@, canonical_key@, action@)),
{
    let ghost before = issues_view(issues@);
    issues.push(RuntimeConfigMigrationIssue { legacy_key, canonical_key, action: owned(action) });
    assert(issues_view(issues@) =~= before.push((legacy_key@, canonical_key@, action@)));
}

/// Carries `section.legacy` over to `section.canonical`, recording the issue.
pub fn migrate_legacy_key(
    doc: &mut ConfigDocument,
    section: &str,
    legacy: &str,
    canonical: &str,
    kind: LegacyKind,
    issues: &mut Vec<RuntimeConfigMigrationIssue>,
)
    requires
        old(doc).wf(),
    ensures
        final(doc).wf(),
        final(doc)@ == migrate_key_spec(old(doc)@, section@, legacy@, canonical@, kind).0,
        issues_view(final(issues)@) == issues_view(old(issues)@) + migrate_key_spec(
            old(doc)@,
            section@,
            legacy@,
            canonical@,
            kind,
        ).1,
{
    let ghost orig = *doc;
    let (i, mut t) = match take_section(doc, section) {
        None => {
            assert(issues_view(issues@) =~= issues_view(old(issues)@) + Seq::<IssueView>::empty());
            return ;
        },
        Some(found) => found,
    };
    let ghost t0 = t@;
    let legacy_value = match table_get(&t, legacy) {
        Some(v) => {
            if !accepts_value(kind, v) {
                None
            } else {
                Some(clone_value(v))
            }
        },
        None => None,
    };
    let legacy_value = match legacy_value {
        None => {
            put_section(doc, i, t, Ghost(orig));
            assert(t@ == t0);
            assert(orig@.insert(section@, ItemView::Section(t0)) =~= orig@) by {
                lemma_pairs_map_at(doc_pairs(orig.entries@), i as int);
            }
            assert(issues_view(issues@) =~= issues_view(old(issues)@) + Seq::<IssueView>::empty());
            return ;
        },
        Some(v) => v,
    };
    let present = match table_get(&t, canonical) {
        Some(_) => true,
        None => false,
    };
    if !present {
        table_add(&mut t, owned(canonical), rewrite_value(legacy_value, canonical));
    }
    put_section(doc, i, t, Ghost(orig));
    let legacy_key = concat3(section, ".", legacy);
    let canonical_key = concat3(section, ".", canonical);
    if present {
        push_issue(issues, legacy_key, canonical_key, "legacy key detected; canonical key already present");
    } else {
        push_issue(issues, legacy_key, canonical_key, "canonical key populated from legacy value");
    }
    assert(issues_view(issues@) =~= issues_view(old(issues)@) + migrate_key_spec(
        orig@,
        section@,
        legacy@,
        canonical@,
        kind,
    ).1);
}

// ---------------------------------------------------------------------
// The gateway bind address and network mode

/// The position of the last `:` in `s`.
pub open spec fn last_colon(s: Seq<char>) -> Option<int>
    decreases s.len(),
{
    if s.len() == 0 {
        None
    } else if s.last() == ':' {
        Some(s.len() - 1)
    } else {
        last_colon(s.drop_last())
    }
}

fn find_last_colon(s: &Vec<char>) -> (r: Option<usize>)
    ensures
        r matches Some(k) ==> k < s@.len() && last_colon(s@) == Some(k as int),
        r is None ==> last_colon(s@) is None,
{
    let mut i: usize = s.len();
    assert(s@.take(s@.len() as int) =~= s@);
    while i > 0
        invariant
            i <= s@.len(),
            last_colon(s@) == last_colon(s@.take(i as int)),
        decreases i,
    {
        assert(s@.take(i as int).drop_last() =~= s@.take(i - 1));
        if s[i - 1] == ':' {
            return Some(i - 1);
        }
        i = i - 1;
    }
    None
}

/// The value of a string of decimal digits.
pub open spec fn digits_value(d: Seq<char>) -> int
    decreases d.len(),
{
    if d.len() == 0 {
        0
    } else {
        digits_value(d.drop_last()) * 10 + (d.last() as int - '0' as int)
    }
}

/// Every character is an ASCII digit.
pub open spec fn all_digits(d: Seq<char>) -> bool {
    forall|i: int| 0 <= i < d.len() ==> '0' <= #[trigger] d[i] <= '9'
}

/// The text after an optional leading sign.
pub open spec fn unsigned_part(s: Seq<char>) -> Seq<char> {
    if s.len() > 0 && (s[0] == '-' || s[0] == '+') {
        s.drop_first()
    } else {
        s
    }
}

/// What `str::parse::<i64>` accepts, and the number it gives: an optional
/// `+` or `-`, then one or more ASCII digits, within the range of `i64`.
pub open spec fn i64_from_str(s: Seq<char>) -> Option<int> {
    let d = unsigned_part(s);
    let v = if s.len() > 0 && s[0] == '-' {
        -digits_value(d)
    } else {
        digits_value(d)
    };
    if d.len() > 0 && all_digits(d) && i64::MIN <= v <= i64::MAX {
        Some(v)
    } else {
        None
    }
}

/// Reads a decimal `i64` as `str::parse::<i64>` does: an optional sign,
/// then digits, within the range of `i64`.
fn parse_i64(s: &str) -> (r: Option<i64>)
    ensures
        r is Some <==> i64_from_str(s@) is Some,
        r matches Some(n) ==> i64_from_str(s@) == Some(n as int),
{
    let c = chars_of(s);
    let n = c.len();
    let negative = n > 0 && c[0] == '-';
    let signed = n > 0 && (c[0] == '-' || c[0] == '+');
    let start: usize = if signed {
        1
    } else {
        0
    };
    let ghost d = unsigned_part(s@);
    assert(d =~= s@.subrange(start as int, n as int));
    if start >= n {
        return None;
    }
    let limit: u128 = if negative {
        9223372036854775808
    } else {
        9223372036854775807
    };
    let mut acc: u128 = 0;
    let mut over = false;
    let mut i: usize = start;
    while i < n
        invariant
            start <= i <= n,
            n == s@.len(),
            c@ == s@,
            d == s@.subrange(start as int, n as int),
            d == unsigned_part(s@),
            signed == (s@.len() > 0 && (s@[0] == '-' || s@[0] == '+')),
            negative == (s@.len() > 0 && s@[0] == '-'),
            limit == (if negative {
                9223372036854775808u128
            } else {
                9223372036854775807u128
            }),
            forall|k: int| start <= k < i ==> '0' <= #[trigger] c@[k] <= '9',
            !over ==> acc == digits_value(c@.subrange(start as int, i as int)) && acc <= limit,
            over ==> digits_value(c@.subrange(start as int, i as int)) > limit,
        decreases n - i,
    {
        let ch = c[i];
        if ch < '0' || ch > '9' {
            assert(d[i - start] == ch);
            assert(!('0' <= d[i - start] <= '9'));
            assert(!all_digits(d));
            return None;
        }
        let digit: u128 = (ch as u32 - '0' as u32) as u128;
        assert(c@.subrange(start as int, i + 1).drop_last() =~= c@.subrange(start as int, i as int));
        if !over {
            if acc * 10 + digit > limit {
                over = true;
            } else {
                acc = acc * 10 + digit;
            }
        }
        i = i + 1;
    }
    assert(c@.subrange(start as int, n as int) =~= d);
    if over {
        return None;
    }
    if negative {
        if acc == 9223372036854775808 {
            Some(i64::MIN)
        } else {
            let m = acc as i64;
            Some(-m)
        }
    } else {
        Some(acc as i64)
    }
}

/// The document after the legacy `gateway.bind` address fills the missing
/// `host` and `port`, and the issue it records; a bind value without a
/// colon changes nothing.
pub open spec fn migrate_bind_spec(doc: Map<Seq<char>, ItemView>) -> (Map<Seq<char>, ItemView>, Seq<IssueView>) {
    match section_of(doc, "gateway"@) {
        Some(t) => if t.contains_key("bind"@) && t["bind"@] is Text {
            let b = t["bind"@]->Text_0;
            match last_colon(b) {
                Some(k) => {
                    let host = b.take(k);
                    let port = b.skip(k + 1);
                    let t1 = if t.contains_key("host"@) {
                        t
                    } else {
                        t.insert("host"@, ValueView::Text(host))
                    };
                    let t2 = if !t1.contains_key("port"@) && i64_from_str(port) is Some {
                        t1.insert("port"@, ValueView::Integer(i64_from_str(port)->0))
                    } else {
                        t1
                    };
                    (
                        doc.insert("gateway"@, ItemView::Section(t2)),
                        seq![
                            (
                                "gateway.bind"@,
                                "gateway.host + gateway.port"@,
                                "canonical bind fields populated from legacy gateway.bind"@,
                            ),
                        ],
                    )
                },
                None => (doc, seq![]),
            }
        } else {
            (doc, seq![])
        },
        None => (doc, seq![]),
    }
}

fn slice_chars(v: &Vec<char>, from: usize, to: usize) -> (r: String)
    requires
        from <= to <= v@.len(),
    ensures
        r@ == v@.subrange(from as int, to as int),
{
    let mut out: Vec<char> = Vec::new();
    let mut i: usize = from;
    while i < to
        invariant
            from <= i <= to <= v@.len(),
            out@ == v@.subrange(from as int, i as int),
        decreases to - i,
    {
        out.push(v[i]);
        assert(v@.subrange(from as int, i + 1) =~= v@.subrange(from as int, i as int).push(v@[i as int]));
        i = i + 1;
    }
    string_from_chars(&out)
}

/// Splits the legacy `gateway.bind` address into `host` and `port`.
pub fn migrate_legacy_bind_key(doc: &mut ConfigDocument, issues: &mut Vec<RuntimeConfigMigrationIssue>)
    requires
        old(doc).wf(),
    ensures
        final(doc).wf(),
        final(doc)@ == migrate_bind_spec(old(doc)@).0,
        issues_view(final(issues)@) == issues_view(old(issues)@) + migrate_bind_spec(old(doc)@).1,
{
    let ghost orig = *doc;
    let (i, mut t) = match take_section(doc, "gateway") {
        None => {
            assert(issues_view(issues@) =~= issues_view(old(issues)@) + Seq::<IssueView>::empty());
            return ;
        },
        Some(found) => found,
    };
    let ghost t0 = t@;
    let bind = match table_get(&t, "bind") {
        Some(ConfigValue::Text(b)) => Some(chars_of(b.as_str())),
        _ => None,
    };
    let split = match &bind {
        Some(b) => match find_last_colon(b) {
            Some(k) => {
                let n = b.len();
                assert(k < n);
                Some((slice_chars(b, 0, k), slice_chars(b, k + 1, n)))
            },
            None => None,
        },
        None => None,
    };
    match split {
        None => {
            put_section(doc, i, t, Ghost(orig));
            assert(orig@.insert("gateway"@, ItemView::Section(t0)) =~= orig@);
            assert(issues_view(issues@) =~= issues_view(old(issues)@) + Seq::<IssueView>::empty());
        },
        Some((host, port)) => {
            let ghost b = t0["bind"@]->Text_0;
            assert(host@ =~= b.take(last_colon(b)->0));
            assert(port@ =~= b.skip(last_colon(b)->0 + 1));
            let has_host = match table_get(&t, "host") {
                Some(_) => true,
                None => false,
            };
            if !has_host {
                table_add(&mut t, owned("host"), ConfigValue::Text(host));
            }
            let has_port = match table_get(&t, "port") {
                Some(_) => true,
                None => false,
            };
            if !has_port {
                match parse_i64(port.as_str()) {
                    Some(n) => table_add(&mut t, owned("port"), ConfigValue::Integer(n)),
                    None => {},
                }
            }
            put_section(doc, i, t, Ghost(orig));
            push_issue(
                issues,
                owned("gateway.bind"),
                owned("gateway.host + gateway.port"),
                "canonical bind fields populated from legacy gateway.bind",
            );
            assert(issues_view(issues@) =~= issues_view(old(issues)@) + migrate_bind_spec(orig@).1);
        },
    }
}

/// The note that records an inferred network mode.
pub open spec fn network_note(host: Seq<char>) -> Seq<char> {
    "gateway.network_mode inferred as `"@ + network_mode_for(host) + "` from gateway.host = `"@ + host + "`"@
}

/// The document after a gateway section without `network_mode` gets the
/// one its host implies (an unset or non-text host counts as
/// `127.0.0.1`), and the note of it.
pub open spec fn infer_network_spec(doc: Map<Seq<char>, ItemView>) -> (Map<Seq<char>, ItemView>, Seq<Seq<char>>) {
    match section_of(doc, "gateway"@) {
        Some(t) => if t.contains_key("network_mode"@) {
            (doc, seq![])
        } else {
            let host = if t.contains_key("host"@) && t["host"@] is Text {
                t["host"@]->Text_0
            } else {
                "127.0.0.1"@
            };
            (
                doc.insert(
                    "gateway"@,
                    ItemView::Section(t.insert("network_mode"@, ValueView::Text(network_mode_for(host)))),
                ),
                seq![network_note(host)],
            )
        },
        None => (doc, seq![]),
    }
}

/// Infers the gateway's network mode when the configuration names none.
pub fn infer_document_network_mode(doc: &mut ConfigDocument, inferred: &mut Vec<String>)
    requires
        old(doc).wf(),
    ensures
        final(doc).wf(),
        final(doc)@ == infer_network_spec(old(doc)@).0,
        strs(final(inferred)@) == strs(old(inferred)@) + infer_network_spec(old(doc)@).1,
{
    let ghost orig = *doc;
    let (i, mut t) = match take_section(doc, "gateway") {
        None => {
            assert(strs(inferred@) =~= strs(old(inferred)@) + Seq::<Seq<char>>::empty());
            return ;
        },
        Some(found) => found,
    };
    let ghost t0 = t@;
    let has_mode = match table_get(&t, "network_mode") {
        Some(_) => true,
        None => false,
    };
    if has_mode {
        put_section(doc, i, t, Ghost(orig));
        assert(orig@.insert("gateway"@, ItemView::Section(t0)) =~= orig@);
        assert(strs(inferred@) =~= strs(old(inferred)@) + Seq::<Seq<char>>::empty());
        return ;
    }
    let (mode, note) = {
        let host = match table_get(&t, "host") {
            Some(ConfigValue::Text(h)) => Some(h.as_str()),
            _ => None,
        };
        infer_gateway_network_mode(host)
    };
    table_add(&mut t, owned("network_mode"), ConfigValue::Text(mode));
    put_section(doc, i, t, Ghost(orig));
    let ghost before = strs(inferred@);
    inferred.push(note);
    assert(strs(inferred@) =~= before.push(note@));
}

// ---------------------------------------------------------------------
// The whole migration

/// The document after every migration step, in order, with the issues
/// and the inferred defaults they record.
pub open spec fn migration_spec(doc: Map<Seq<char>, ItemView>) -> (
    Map<Seq<char>, ItemView>,
    Seq<IssueView>,
    Seq<Seq<char>>,
) {
    let (d1, i1) = migrate_key_spec(doc, "providers"@, "primary"@, "default_provider"@, LegacyKind::Single);
    let (d2, i2) = migrate_key_spec(d1, "providers"@, "default"@, "default_provider"@, LegacyKind::Single);
    let (d3, i3) = migrate_key_spec(d2, "providers"@, "fallbacks"@, "fallback_chain"@, LegacyKind::List);
    let (d4, i4) = migrate_key_spec(
        d3,
        "security"@,
        "require_authentication"@,
        "require_auth"@,
        LegacyKind::Single,
    );
    let (d5, i5) = migrate_key_spec(d4, "gateway"@, "allowed_origin"@, "allowed_origins"@, LegacyKind::Single);
    let (d6, i6) = migrate_key_spec(d5, "gateway"@, "origin_whitelist"@, "allowed_origins"@, LegacyKind::List);
    let (d7, i7) = migrate_bind_spec(d6);
    let (d8, n) = infer_network_spec(d7);
    (d8, i1 + i2 + i3 + i4 + i5 + i6 + i7, n)
}

/// Migrates a configuration document in place: legacy keys, the bind
/// address, then the network mode. Returns the issues found and the
/// defaults inferred.
pub fn migrate_config_document(doc: &mut ConfigDocument) -> (r: (Vec<RuntimeConfigMigrationIssue>, Vec<String>))
    requires
        old(doc).wf(),
    ensures
        final(doc).wf(),
        final(doc)@ == migration_spec(old(doc)@).0,
        issues_view(r.0@) == migration_spec(old(doc)@).1,
        strs(r.1@) == migration_spec(old(doc)@).2,
{
    let mut issues: Vec<RuntimeConfigMigrationIssue> = Vec::new();
    let mut inferred: Vec<String> = Vec::new();
    let ghost d0 = doc@;
    migrate_legacy_key(doc, "providers", "primary", "default_provider", LegacyKind::Single, &mut issues);
    migrate_legacy_key(doc, "providers", "default", "default_provider", LegacyKind::Single, &mut issues);
    migrate_legacy_key(doc, "providers", "fallbacks", "fallback_chain", LegacyKind::List, &mut issues);
    migrate_legacy_key(doc, "security", "require_authentication", "require_auth", LegacyKind::Single, &mut issues);
    migrate_legacy_key(doc, "gateway", "allowed_origin", "allowed_origins", LegacyKind::Single, &mut issues);
    migrate_legacy_key(doc, "gateway", "origin_whitelist", "allowed_origins", LegacyKind::List, &mut issues);
    migrate_legacy_bind_key(doc, &mut issues);
    infer_document_network_mode(doc, &mut inferred);
    assert(issues_view(issues@) =~= migration_spec(d0).1);
    assert(strs(inferred@) =~= migration_spec(d0).2);
    (issues, inferred)
}

// ---------------------------------------------------------------------
// The document and its TOML text

/// Every item of the array is a string.
pub open spec fn all_text(items: Seq<TomlView>) -> bool {
    forall|i: int| 0 <= i < items.len() ==> #[trigger] items[i] is Text
}

/// The strings of an array of strings.
pub open spec fn texts_of(items: Seq<TomlView>) -> Seq<Seq<char>> {
    items.map_values(|t: TomlView| t->Text_0)
}

/// A TOML value as the migration reads it: strings, booleans, integers and
/// arrays of strings as such, any other value kept as it is.
pub open spec fn config_value_of(v: TomlView) -> ValueView {
    match v {
        TomlView::Text(s) => ValueView::Text(s),
        TomlView::Boolean(b) => ValueView::Boolean(b),
        TomlView::Integer(n) => ValueView::Integer(n),
        TomlView::Array(items) => if all_text(items) {
            ValueView::TextList(texts_of(items))
        } else {
            ValueView::Encoded(v)
        },
        _ => ValueView::Encoded(v),
    }
}

/// The entries of a TOML table as the migration reads them.
pub open spec fn config_pairs_of(entries: Seq<(Seq<char>, TomlView)>) -> Seq<(Seq<char>, ValueView)> {
    entries.map_values(|p: (Seq<char>, TomlView)| (p.0, config_value_of(p.1)))
}

/// A top-level TOML entry as the migration reads it: a table is a section.
pub open spec fn config_item_of(v: TomlView) -> ItemView {
    match v {
        TomlView::Table(entries) => ItemView::Section(pairs_map(config_pairs_of(entries))),
        _ => ItemView::Value(config_value_of(v)),
    }
}

/// A parsed TOML document as the migration reads it.
pub open spec fn config_document_of(entries: Seq<(Seq<char>, TomlView)>) -> Map<Seq<char>, ItemView> {
    pairs_map(entries.map_values(|p: (Seq<char>, TomlView)| (p.0, config_item_of(p.1))))
}

/// A value of the migration read from TOML.
pub fn config_value_from_toml(v: &TomlValue) -> (r: ConfigValue)
    ensures
        r@ == config_value_of(toml_view(*v)),
{
    match v {
        TomlValue::Text(s) => ConfigValue::Text(s.clone()),
        TomlValue::Boolean(b) => ConfigValue::Boolean(*b),
        TomlValue::Integer(n) => ConfigValue::Integer(*n),
        TomlValue::Array(items) => {
            let mut texts: Vec<String> = Vec::new();
            let mut all = true;
            let mut i: usize = 0;
            while i < items.len()
                invariant
                    i <= items@.len(),
                    all ==> texts@.len() == i,
                    all ==> forall|k: int| 0 <= k < i ==> #[trigger] items@[k] is Text && texts@[k]@ == items@[k]->Text_0@,
                    !all ==> exists|k: int| 0 <= k < items@.len() && !(#[trigger] items@[k] is Text),
                decreases items@.len() - i,
            {
                match &items[i] {
                    TomlValue::Text(t) => {
                        if all {
                            texts.push(t.clone());
                        }
                    },
                    _ => {
                        all = false;
                    },
                }
                i = i + 1;
            }
            proof {
                lemma_toml_views_index(items@);
            }
            if all {
                assert(all_text(toml_views(items@)));
                assert(strs(texts@) =~= texts_of(toml_views(items@)));
                ConfigValue::TextList(texts)
            } else {
                let ghost k = choose|k: int| 0 <= k < items@.len() && !(#[trigger] items@[k] is Text);
                assert(!(toml_views(items@)[k] is Text));
                ConfigValue::Encoded(clone_toml(v))
            }
        },
        _ => ConfigValue::Encoded(clone_toml(v)),
    }
}

/// A section of the migration read from the entries of a TOML table.
pub fn config_table_from_toml(entries: &Vec<(String, TomlValue)>) -> (r: ConfigTable)
    requires
        keys_unique(toml_entry_views(entries@)),
    ensures
        r.wf(),
        table_pairs(r.entries@) == config_pairs_of(toml_entry_views(entries@)),
{
    proof {
        lemma_toml_entry_views_index(entries@);
    }
    let mut out: Vec<(String, ConfigValue)> = Vec::new();
    let mut i: usize = 0;
    while i < entries.len()
        invariant
            i <= entries@.len(),
            toml_entry_views(entries@).len() == entries@.len(),
            forall|k: int| 0 <= k < entries@.len() ==> #[trigger] toml_entry_views(entries@)[k] == (entries@[k].0@, toml_view(entries@[k].1)),
            table_pairs(out@) =~= config_pairs_of(toml_entry_views(entries@)).subrange(0, i as int),
        decreases entries@.len() - i,
    {
        let value = config_value_from_toml(&entries[i].1);
        let ghost before = out@;
        out.push((entries[i].0.clone(), value));
        assert(table_pairs(out@) =~= table_pairs(before).push((entries@[i as int].0@, value@)));
        i = i + 1;
    }
    ConfigTable { entries: out }
}

/// A top-level entry of the migration read from TOML.
pub fn config_item_from_toml(v: &TomlValue) -> (r: ConfigItem)
    requires
        toml_view(*v) matches TomlView::Table(t) ==> keys_unique(t),
    ensures
        section_wf(r),
        item_view(r) == config_item_of(toml_view(*v)),
{
    match v {
        TomlValue::Table(entries) => ConfigItem::Section(config_table_from_toml(entries)),
        _ => ConfigItem::Value(config_value_from_toml(v)),
    }
}

/// The document of the migration read from a parsed TOML document.
pub fn config_document_from_toml(entries: &Vec<(String, TomlValue)>) -> (r: ConfigDocument)
    requires
        document_keys_unique(toml_entry_views(entries@)),
    ensures
        r.wf(),
        r@ == config_document_of(toml_entry_views(entries@)),
{
    proof {
        lemma_toml_entry_views_index(entries@);
    }
    let ghost views = toml_entry_views(entries@);
    let ghost target = views.map_values(|p: (Seq<char>, TomlView)| (p.0, config_item_of(p.1)));
    let mut out: Vec<(String, ConfigItem)> = Vec::new();
    let mut i: usize = 0;
    while i < entries.len()
        invariant
            i <= entries@.len(),
            views == toml_entry_views(entries@),
            target == views.map_values(|p: (Seq<char>, TomlView)| (p.0, config_item_of(p.1))),
            document_keys_unique(views),
            views.len() == entries@.len(),
            forall|k: int| 0 <= k < entries@.len() ==> #[trigger] views[k] == (entries@[k].0@, toml_view(entries@[k].1)),
            doc_pairs(out@) =~= target.subrange(0, i as int),
            forall|k: int| 0 <= k < i ==> section_wf(#[trigger] out@[k].1),
            out@.len() == i,
        decreases entries@.len() - i,
    {
        assert(views[i as int].1 == toml_view(entries@[i as int].1));
        let item = config_item_from_toml(&entries[i].1);
        let ghost before = out@;
        out.push((entries[i].0.clone(), item));
        assert(doc_pairs(out@) =~= doc_pairs(before).push((entries@[i as int].0@, item_view(item))));
        i = i + 1;
    }
    assert(target.subrange(0, entries@.len() as int) =~= target);
    ConfigDocument { entries: out }
}

/// Reads a runtime configuration document from its TOML text.
pub fn parse_config_document(raw: &str) -> (r: Result<ConfigDocument, String>)
    ensures
        r is Ok <==> toml_document(raw@) is Some,
        r matches Ok(d) ==> d.wf(),
        r matches Ok(d) ==> (toml_document(raw@) matches Some(t) && d@ == config_document_of(t)),
        r matches Err(e) ==> e@ == "Failed to parse runtime config TOML"@,
{
    match parse_toml_document(raw) {
        Some(entries) => Ok(config_document_from_toml(&entries)),
        None => Err(owned("Failed to parse runtime config TOML")),
    }
}

/// Reads a runtime configuration from its TOML text and migrates it.
/// Returns the migrated document, the issues found and the defaults
/// inferred.
pub fn migrate_config_text(raw: &str) -> (r: Result<(ConfigDocument, Vec<RuntimeConfigMigrationIssue>, Vec<String>), String>)
    ensures
        r is Ok <==> toml_document(raw@) is Some,
        r matches Ok(t) ==> t.0.wf(),
        r matches Ok(t) ==> (toml_document(raw@) matches Some(e)
            && t.0@ == migration_spec(config_document_of(e)).0
            && issues_view(t.1@) == migration_spec(config_document_of(e)).1
            && strs(t.2@) == migration_spec(config_document_of(e)).2),
        r matches Err(m) ==> m@ == "Failed to parse runtime config TOML"@,
{
    match parse_config_document(raw) {
        Ok(doc) => {
            let mut doc = doc;
            let (issues, inferred) = migrate_config_document(&mut doc);
            Ok((doc, issues, inferred))
        },
        Err(e) => Err(e),
    }
}

/// A value of the migration as TOML.
pub open spec fn toml_of(v: ValueView) -> TomlView {
    match v {
        ValueView::Text(s) => TomlView::Text(s),
        ValueView::Boolean(b) => TomlView::Boolean(b),
        ValueView::Integer(n) => TomlView::Integer(n),
        ValueView::TextList(l) => TomlView::Array(l.map_values(|s: Seq<char>| TomlView::Text(s))),
        ValueView::Encoded(t) => t,
    }
}

/// A section's entries as TOML, in their order.
pub open spec fn section_toml(e: Seq<(String, ConfigValue)>) -> Seq<(Seq<char>, TomlView)> {
    e.map_values(|p: (String, ConfigValue)| (p.0@, toml_of(p.1@)))
}

/// A top-level entry as TOML.
pub open spec fn item_toml(i: ConfigItem) -> TomlView {
    match i {
        ConfigItem::Section(t) => TomlView::Table(section_toml(t.entries@)),
        ConfigItem::Value(v) => toml_of(v@),
    }
}

/// A document's entries as TOML, in their order.
pub open spec fn document_toml(e: Seq<(String, ConfigItem)>) -> Seq<(Seq<char>, TomlView)> {
    e.map_values(|p: (String, ConfigItem)| (p.0@, item_toml(p.1)))
}

/// A value of the migration as a TOML value.
pub fn config_value_to_toml(v: &ConfigValue) -> (r: TomlValue)
    ensures
        toml_view(r) == toml_of(v@),
{
    match v {
        ConfigValue::Text(s) => TomlValue::Text(s.clone()),
        ConfigValue::Boolean(b) => TomlValue::Boolean(*b),
        ConfigValue::Integer(n) => TomlValue::Integer(*n),
        ConfigValue::TextList(l) => {
            let mut out: Vec<TomlValue> = Vec::new();
            let mut i: usize = 0;
            while i < l.len()
                invariant
                    i <= l@.len(),
                    out@.len() == i,
                    forall|k: int| 0 <= k < i ==> #[trigger] out@[k] == TomlValue::Text(l@[k]),
                decreases l@.len() - i,
            {
                out.push(TomlValue::Text(l[i].clone()));
                i = i + 1;
            }
            proof {
                lemma_toml_views_index(out@);
            }
            assert(toml_views(out@) =~= strs(l@).map_values(|s: Seq<char>| TomlView::Text(s)));
            TomlValue::Array(out)
        },
        ConfigValue::Encoded(t) => clone_toml(t),
    }
}

/// A document of the migration as the entries of a TOML document.
pub fn config_document_to_toml(doc: &ConfigDocument) -> (r: Vec<(String, TomlValue)>)
    ensures
        toml_entry_views(r@) == document_toml(doc.entries@),
{
    let mut out: Vec<(String, TomlValue)> = Vec::new();
    let mut i: usize = 0;
    while i < doc.entries.len()
        invariant
            i <= doc.entries@.len(),
            toml_entry_views(out@) =~= document_toml(doc.entries@).subrange(0, i as int),
        decreases doc.entries@.len() - i,
    {
        let value = match &doc.entries[i].1 {
            ConfigItem::Section(t) => {
                let mut inner: Vec<(String, TomlValue)> = Vec::new();
                let mut j: usize = 0;
                while j < t.entries.len()
                    invariant
                        j <= t.entries@.len(),
                        toml_entry_views(inner@) =~= section_toml(t.entries@).subrange(0, j as int),
                    decreases t.entries@.len() - j,
                {
                    let v = config_value_to_toml(&t.entries[j].1);
                    let ghost before = inner@;
                    inner.push((t.entries[j].0.clone(), v));
                    proof {
                        lemma_entry_push(before, inner@[before.len() as int]);
                    }
                    j = j + 1;
                }
                assert(section_toml(t.entries@).subrange(0, t.entries@.len() as int) =~= section_toml(t.entries@));
                TomlValue::Table(inner)
            },
            ConfigItem::Value(v) => config_value_to_toml(v),
        };
        let ghost before = out@;
        out.push((doc.entries[i].0.clone(), value));
        proof {
            lemma_entry_push(before, out@[before.len() as int]);
        }
        i = i + 1;
    }
    assert(document_toml(doc.entries@).subrange(0, doc.entries@.len() as int) =~= document_toml(doc.entries@));
    out
}

proof fn lemma_entry_push(s: Seq<(String, TomlValue)>, x: (String, TomlValue))
    ensures
        toml_entry_views(s.push(x)) == toml_entry_views(s).push((x.0@, toml_view(x.1))),
{
    assert(s.push(x).subrange(0, s.len() as int) =~= s);
}

/// Renders a document of the migration as TOML text.
pub fn render_config_document(doc: &ConfigDocument) -> (r: Result<String, String>)
    ensures
        r is Ok <==> toml_rendering(document_toml(doc.entries@)) is Some,
        r matches Ok(text) ==> toml_rendering(document_toml(doc.entries@)) == Some(text@),
        r matches Err(e) ==> e@ == "Failed to render config TOML"@,
{
    let entries = config_document_to_toml(doc);
    match render_toml_document(&entries) {
        Some(text) => Ok(text),
        None => Err(owned("Failed to render config TOML")),
    }
}

/// What a configuration migration reports.
pub struct RuntimeConfigMigrationReport {
    pub config_path: String,
    pub applied: bool,
    pub changed: bool,
    pub legacy_issues: Vec<RuntimeConfigMigrationIssue>,
    pub inferred_defaults: Vec<String>,
    pub backup_created: bool,
    pub next_steps: Vec<String>,
}

/// The steps advised after a migration.
pub open spec fn migration_next_steps(config_path: Seq<char>, changed: bool, apply: bool) -> Seq<Seq<char>> {
    (if changed && !apply {
        seq![
            "Run `openrustclaw runtime migrate-config --config "@ + config_path
                + " --apply` to rewrite the canonical config with a timestamped backup."@,
        ]
    } else {
        Seq::<Seq<char>>::empty()
    }) + seq![
        "Run `openrustclaw runtime upgrade-plan --config "@ + config_path + "` before the next production restart."@,
    ]
}

/// The report of a migration of the config at `resolved_config_path`
/// (`config_path` as given): it changed something when it found an issue
/// or inferred a default, and it was applied when asked and changed.
/// `config_exists` says whether the config file exists once the
/// migration was written (a backup is taken when one is applied).
pub fn config_migration_report(
    config_path: &str,
    resolved_config_path: &str,
    apply: bool,
    legacy_issues: Vec<RuntimeConfigMigrationIssue>,
    inferred_defaults: Vec<String>,
    config_exists: bool,
) -> (r: RuntimeConfigMigrationReport)
    ensures
        r.config_path@ == resolved_config_path@,
        r.changed == (legacy_issues@.len() > 0 || inferred_defaults@.len() > 0),
        r.applied == (apply && r.changed),
        r.backup_created == (apply && r.changed && config_exists),
        r.legacy_issues == legacy_issues,
        r.inferred_defaults == inferred_defaults,
        strs(r.next_steps@) == migration_next_steps(config_path@, r.changed, apply),
{
    let changed = legacy_issues.len() > 0 || inferred_defaults.len() > 0;
    let mut next_steps: Vec<String> = Vec::new();
    if changed && !apply {
        next_steps.push(
            concat3(
                "Run `openrustclaw runtime migrate-config --config ",
                config_path,
                " --apply` to rewrite the canonical config with a timestamped backup.",
            ),
        );
    }
    next_steps.push(
        concat3(
            "Run `openrustclaw runtime upgrade-plan --config ",
            config_path,
            "` before the next production restart.",
        ),
    );
    assert(strs(next_steps@) =~= migration_next_steps(config_path@, changed, apply));
    RuntimeConfigMigrationReport {
        config_path: owned(resolved_config_path),
        applied: apply && changed,
        changed,
        legacy_issues,
        inferred_defaults,
        backup_created: apply && changed && config_exists,
        next_steps,
    }
}

// ---------------------------------------------------------------------
// What a migration keeps

/// `b` keeps all that `a` holds: a section keeps every key with its
/// value, and a bare value stays as it is.
pub open spec fn item_extends(a: ItemView, b: ItemView) -> bool {
    match a {
        ItemView::Section(t) => match b {
            ItemView::Section(t2) => forall|k: Seq<char>| #[trigger]
                t.contains_key(k) ==> t2.contains_key(k) && t2[k] == t[k],
            ItemView::Value(_) => false,
        },
        ItemView::Value(v) => b == ItemView::Value(v),
    }
}

/// Every entry of `d` is kept in `d2`.
pub open spec fn keeps_entries(d: Map<Seq<char>, ItemView>, d2: Map<Seq<char>, ItemView>) -> bool {
    forall|s: Seq<char>| #[trigger] d.contains_key(s) ==> d2.contains_key(s) && item_extends(d[s], d2[s])
}

proof fn lemma_keeps_trans(a: Map<Seq<char>, ItemView>, b: Map<Seq<char>, ItemView>, c: Map<Seq<char>, ItemView>)
    requires
        keeps_entries(a, b),
        keeps_entries(b, c),
    ensures
        keeps_entries(a, c),
{
    assert forall|s: Seq<char>| #[trigger] a.contains_key(s) implies c.contains_key(s) && item_extends(a[s], c[s]) by {
        assert(b.contains_key(s));
        match a[s] {
            ItemView::Section(t) => {
                let t2 = b[s]->Section_0;
                let t3 = c[s]->Section_0;
                assert forall|k: Seq<char>| #[trigger] t.contains_key(k) implies t3.contains_key(k) && t3[k] == t[k] by {
                    assert(t2.contains_key(k));
                }
            },
            ItemView::Value(_) => {},
        }
    }
}

/// Replacing a section by one that keeps its keys keeps every entry.
proof fn lemma_keeps_section_grow(
    d: Map<Seq<char>, ItemView>,
    name: Seq<char>,
    t: Map<Seq<char>, ValueView>,
    t2: Map<Seq<char>, ValueView>,
)
    requires
        section_of(d, name) == Some(t),
        forall|k: Seq<char>| #[trigger] t.contains_key(k) ==> t2.contains_key(k) && t2[k] == t[k],
    ensures
        keeps_entries(d, d.insert(name, ItemView::Section(t2))),
{
    let d2 = d.insert(name, ItemView::Section(t2));
    assert forall|s: Seq<char>| #[trigger] d.contains_key(s) implies d2.contains_key(s) && item_extends(d[s], d2[s]) by {
        if s != name {
            match d[s] {
                ItemView::Section(u) => {
                    assert forall|k: Seq<char>| #[trigger] u.contains_key(k) implies d2[s]->Section_0.contains_key(k)
                        && d2[s]->Section_0[k] == u[k] by {}
                },
                ItemView::Value(_) => {},
            }
        }
    }
}

proof fn lemma_keeps_refl(d: Map<Seq<char>, ItemView>)
    ensures
        keeps_entries(d, d),
{
    assert forall|s: Seq<char>| #[trigger] d.contains_key(s) implies d.contains_key(s) && item_extends(d[s], d[s]) by {
        match d[s] {
            ItemView::Section(t) => {
                assert forall|k: Seq<char>| #[trigger] t.contains_key(k) implies t.contains_key(k) && t[k] == t[k] by {}
            },
            ItemView::Value(_) => {},
        }
    }
}

proof fn lemma_key_step_keeps(
    doc: Map<Seq<char>, ItemView>,
    section: Seq<char>,
    legacy: Seq<char>,
    canonical: Seq<char>,
    kind: LegacyKind,
)
    ensures
        keeps_entries(doc, migrate_key_spec(doc, section, legacy, canonical, kind).0),
{
    lemma_keeps_refl(doc);
    match section_of(doc, section) {
        Some(t) => if t.contains_key(legacy) && accepts(kind, t[legacy]) {
            if t.contains_key(canonical) {
                lemma_keeps_section_grow(doc, section, t, t);
            } else {
                lemma_keeps_section_grow(doc, section, t, t.insert(canonical, rewritten(t[legacy], canonical)));
            }
        },
        None => {},
    }
}

proof fn lemma_bind_step_keeps(doc: Map<Seq<char>, ItemView>)
    ensures
        keeps_entries(doc, migrate_bind_spec(doc).0),
{
    lemma_keeps_refl(doc);
    match section_of(doc, "gateway"@) {
        Some(t) => if t.contains_key("bind"@) && t["bind"@] is Text {
            let b = t["bind"@]->Text_0;
            match last_colon(b) {
                Some(k) => {
                    let host = b.take(k);
                    let port = b.skip(k + 1);
                    let t1 = if t.contains_key("host"@) {
                        t
                    } else {
                        t.insert("host"@, ValueView::Text(host))
                    };
                    let t2 = if !t1.contains_key("port"@) && i64_from_str(port) is Some {
                        t1.insert("port"@, ValueView::Integer(i64_from_str(port)->0))
                    } else {
                        t1
                    };
                    lemma_keeps_section_grow(doc, "gateway"@, t, t2);
                },
                None => {},
            }
        },
        None => {},
    }
}

proof fn lemma_infer_step_keeps(doc: Map<Seq<char>, ItemView>)
    ensures
        keeps_entries(doc, infer_network_spec(doc).0),
{
    lemma_keeps_refl(doc);
    match section_of(doc, "gateway"@) {
        Some(t) => if !t.contains_key("network_mode"@) {
            let host = if t.contains_key("host"@) && t["host"@] is Text {
                t["host"@]->Text_0
            } else {
                "127.0.0.1"@
            };
            lemma_keeps_section_grow(
                doc,
                "gateway"@,
                t,
                t.insert("network_mode"@, ValueView::Text(network_mode_for(host))),
            );
        },
        None => {},
    }
}

/// A migration only adds: every section keeps each of its keys with its
/// value (a canonical key already present is never overwritten), and
/// every other entry stays as it is.
pub proof fn law_migration_keeps_existing_values(doc: Map<Seq<char>, ItemView>)
    ensures
        keeps_entries(doc, migration_spec(doc).0),
{
    let (d1, i1) = migrate_key_spec(doc, "providers"@, "primary"@, "default_provider"@, LegacyKind::Single);
    let (d2, i2) = migrate_key_spec(d1, "providers"@, "default"@, "default_provider"@, LegacyKind::Single);
    let (d3, i3) = migrate_key_spec(d2, "providers"@, "fallbacks"@, "fallback_chain"@, LegacyKind::List);
    let (d4, i4) = migrate_key_spec(
        d3,
        "security"@,
        "require_authentication"@,
        "require_auth"@,
        LegacyKind::Single,
    );
    let (d5, i5) = migrate_key_spec(d4, "gateway"@, "allowed_origin"@, "allowed_origins"@, LegacyKind::Single);
    let (d6, i6) = migrate_key_spec(d5, "gateway"@, "origin_whitelist"@, "allowed_origins"@, LegacyKind::List);
    let (d7, i7) = migrate_bind_spec(d6);
    let (d8, n) = infer_network_spec(d7);
    lemma_key_step_keeps(doc, "providers"@, "primary"@, "default_provider"@, LegacyKind::Single);
    lemma_key_step_keeps(d1, "providers"@, "default"@, "default_provider"@, LegacyKind::Single);
    lemma_key_step_keeps(d2, "providers"@, "fallbacks"@, "fallback_chain"@, LegacyKind::List);
    lemma_key_step_keeps(d3, "security"@, "require_authentication"@, "require_auth"@, LegacyKind::Single);
    lemma_key_step_keeps(d4, "gateway"@, "allowed_origin"@, "allowed_origins"@, LegacyKind::Single);
    lemma_key_step_keeps(d5, "gateway"@, "origin_whitelist"@, "allowed_origins"@, LegacyKind::List);
    lemma_bind_step_keeps(d6);
    lemma_infer_step_keeps(d7);
    lemma_keeps_trans(doc, d1, d2);
    lemma_keeps_trans(doc, d2, d3);
    lemma_keeps_trans(doc, d3, d4);
    lemma_keeps_trans(doc, d4, d5);
    lemma_keeps_trans(doc, d5, d6);
    lemma_keeps_trans(doc, d6, d7);
    lemma_keeps_trans(doc, d7, d8);
}

// ---------------------------------------------------------------------
// Migrating a migrated document

/// The keys a migration may add to a section.
pub open spec fn added_key(k: Seq<char>) -> bool {
    ||| k == "default_provider"@
    ||| k == "fallback_chain"@
    ||| k == "require_auth"@
    ||| k == "allowed_origins"@
    ||| k == "host"@
    ||| k == "port"@
    ||| k == "network_mode"@
}

/// `t2` keeps every key of `t` with its value, and holds no other key but
/// ones a migration adds.
pub open spec fn section_grows(t: Map<Seq<char>, ValueView>, t2: Map<Seq<char>, ValueView>) -> bool {
    &&& forall|k: Seq<char>| #[trigger] t.contains_key(k) ==> t2.contains_key(k) && t2[k] == t[k]
    &&& forall|k: Seq<char>| #[trigger] t2.contains_key(k) ==> t.contains_key(k) || added_key(k)
}

/// `d2` has the sections of `d`, and no other, each grown as a migration
/// grows it.
pub open spec fn only_adds(d: Map<Seq<char>, ItemView>, d2: Map<Seq<char>, ItemView>) -> bool {
    forall|s: Seq<char>|
        #![trigger section_of(d, s)]
        #![trigger section_of(d2, s)]
        (section_of(d, s) is Some <==> section_of(d2, s) is Some) && (section_of(d, s) is Some ==> section_grows(
            section_of(d, s)->0,
            section_of(d2, s)->0,
        ))
}

/// The legacy key `section.legacy`, when its value is accepted, has its
/// canonical key beside it.
pub open spec fn key_done(
    d: Map<Seq<char>, ItemView>,
    section: Seq<char>,
    legacy: Seq<char>,
    canonical: Seq<char>,
    kind: LegacyKind,
) -> bool {
    match section_of(d, section) {
        Some(t) => (t.contains_key(legacy) && accepts(kind, t[legacy])) ==> t.contains_key(canonical),
        None => true,
    }
}

/// A legacy bind address with a colon has a host beside it, and a port
/// too unless its port part is no number.
pub open spec fn bind_done(d: Map<Seq<char>, ItemView>) -> bool {
    match section_of(d, "gateway"@) {
        Some(t) => (t.contains_key("bind"@) && t["bind"@] is Text && last_colon(t["bind"@]->Text_0) is Some) ==> {
            let b = t["bind"@]->Text_0;
            &&& t.contains_key("host"@)
            &&& (t.contains_key("port"@) || i64_from_str(b.skip(last_colon(b)->0 + 1)) is None)
        },
        None => true,
    }
}

/// A gateway section names its network mode.
pub open spec fn infer_done(d: Map<Seq<char>, ItemView>) -> bool {
    match section_of(d, "gateway"@) {
        Some(t) => t.contains_key("network_mode"@),
        None => true,
    }
}

proof fn lemma_section_grows_refl(t: Map<Seq<char>, ValueView>)
    ensures
        section_grows(t, t),
{
}

proof fn lemma_only_adds_refl(d: Map<Seq<char>, ItemView>)
    ensures
        only_adds(d, d),
{
    assert forall|s: Seq<char>| #[trigger] section_of(d, s) is Some implies section_grows(
        section_of(d, s)->0,
        section_of(d, s)->0,
    ) by {
        lemma_section_grows_refl(section_of(d, s)->0);
    }
}

proof fn lemma_only_adds_trans(a: Map<Seq<char>, ItemView>, b: Map<Seq<char>, ItemView>, c: Map<Seq<char>, ItemView>)
    requires
        only_adds(a, b),
        only_adds(b, c),
    ensures
        only_adds(a, c),
{
    assert forall|s: Seq<char>| #[trigger] section_of(a, s) is Some implies section_grows(
        section_of(a, s)->0,
        section_of(c, s)->0,
    ) by {
        let ta = section_of(a, s)->0;
        let tb = section_of(b, s)->0;
        let tc = section_of(c, s)->0;
        assert(section_grows(ta, tb));
        assert(section_grows(tb, tc));
        assert forall|k: Seq<char>| #[trigger] ta.contains_key(k) implies tc.contains_key(k) && tc[k] == ta[k] by {
            assert(tb.contains_key(k));
        }
        assert forall|k: Seq<char>| #[trigger] tc.contains_key(k) implies ta.contains_key(k) || added_key(k) by {
            if !added_key(k) {
                assert(tb.contains_key(k));
            }
        }
    }
    assert forall|s: Seq<char>| #[trigger] section_of(c, s) is Some implies section_of(a, s) is Some by {
        assert(section_of(b, s) is Some);
    }
}

/// Replacing a section by a grown one only adds.
proof fn lemma_only_adds_insert(
    d: Map<Seq<char>, ItemView>,
    name: Seq<char>,
    t: Map<Seq<char>, ValueView>,
    t2: Map<Seq<char>, ValueView>,
)
    requires
        section_of(d, name) == Some(t),
        section_grows(t, t2),
    ensures
        only_adds(d, d.insert(name, ItemView::Section(t2))),
{
    let d2 = d.insert(name, ItemView::Section(t2));
    assert forall|s: Seq<char>| #[trigger] section_of(d, s) is Some implies section_grows(
        section_of(d, s)->0,
        section_of(d2, s)->0,
    ) by {
        if s != name {
            lemma_section_grows_refl(section_of(d, s)->0);
        }
    }
    assert forall|s: Seq<char>| #[trigger] section_of(d2, s) is Some implies section_of(d, s) is Some by {}
}

proof fn lemma_key_step_adds(
    d: Map<Seq<char>, ItemView>,
    section: Seq<char>,
    legacy: Seq<char>,
    canonical: Seq<char>,
    kind: LegacyKind,
)
    requires
        added_key(canonical),
    ensures
        only_adds(d, migrate_key_spec(d, section, legacy, canonical, kind).0),
        key_done(migrate_key_spec(d, section, legacy, canonical, kind).0, section, legacy, canonical, kind),
{
    lemma_only_adds_refl(d);
    match section_of(d, section) {
        Some(t) => if t.contains_key(legacy) && accepts(kind, t[legacy]) {
            if t.contains_key(canonical) {
                lemma_section_grows_refl(t);
                lemma_only_adds_insert(d, section, t, t);
            } else {
                let t2 = t.insert(canonical, rewritten(t[legacy], canonical));
                lemma_only_adds_insert(d, section, t, t2);
            }
        },
        None => {},
    }
}

proof fn lemma_bind_step_adds(d: Map<Seq<char>, ItemView>)
    ensures
        only_adds(d, migrate_bind_spec(d).0),
        bind_done(migrate_bind_spec(d).0),
{
    lemma_only_adds_refl(d);
    match section_of(d, "gateway"@) {
        Some(t) => if t.contains_key("bind"@) && t["bind"@] is Text {
            let b = t["bind"@]->Text_0;
            match last_colon(b) {
                Some(k) => {
                    let host = b.take(k);
                    let port = b.skip(k + 1);
                    let t1 = if t.contains_key("host"@) {
                        t
                    } else {
                        t.insert("host"@, ValueView::Text(host))
                    };
                    let t2 = if !t1.contains_key("port"@) && i64_from_str(port) is Some {
                        t1.insert("port"@, ValueView::Integer(i64_from_str(port)->0))
                    } else {
                        t1
                    };
                    assert(t2.contains_key("bind"@) && t2["bind"@] == t["bind"@]);
                    lemma_only_adds_insert(d, "gateway"@, t, t2);
                },
                None => {},
            }
        },
        None => {},
    }
}

proof fn lemma_infer_step_adds(d: Map<Seq<char>, ItemView>)
    ensures
        only_adds(d, infer_network_spec(d).0),
        infer_done(infer_network_spec(d).0),
{
    lemma_only_adds_refl(d);
    match section_of(d, "gateway"@) {
        Some(t) => if !t.contains_key("network_mode"@) {
            let host = if t.contains_key("host"@) && t["host"@] is Text {
                t["host"@]->Text_0
            } else {
                "127.0.0.1"@
            };
            lemma_only_adds_insert(d, "gateway"@, t, t.insert("network_mode"@, ValueView::Text(network_mode_for(host))));
        },
        None => {},
    }
}

proof fn lemma_key_done_kept(
    d: Map<Seq<char>, ItemView>,
    d2: Map<Seq<char>, ItemView>,
    section: Seq<char>,
    legacy: Seq<char>,
    canonical: Seq<char>,
    kind: LegacyKind,
)
    requires
        key_done(d, section, legacy, canonical, kind),
        only_adds(d, d2),
        !added_key(legacy),
    ensures
        key_done(d2, section, legacy, canonical, kind),
{
    if section_of(d2, section) is Some {
        let t = section_of(d, section)->0;
        let t2 = section_of(d2, section)->0;
        assert(section_grows(t, t2));
        if t2.contains_key(legacy) {
            assert(t.contains_key(legacy));
        }
    }
}

proof fn lemma_bind_done_kept(d: Map<Seq<char>, ItemView>, d2: Map<Seq<char>, ItemView>)
    requires
        bind_done(d),
        only_adds(d, d2),
        !added_key("bind"@),
    ensures
        bind_done(d2),
{
    if section_of(d2, "gateway"@) is Some {
        let t = section_of(d, "gateway"@)->0;
        let t2 = section_of(d2, "gateway"@)->0;
        assert(section_grows(t, t2));
        if t2.contains_key("bind"@) {
            assert(t.contains_key("bind"@));
            if t.contains_key("host"@) {
                assert(t2.contains_key("host"@));
            }
            if t.contains_key("port"@) {
                assert(t2.contains_key("port"@));
            }
        }
    }
}

proof fn lemma_key_step_fixed(
    d: Map<Seq<char>, ItemView>,
    section: Seq<char>,
    legacy: Seq<char>,
    canonical: Seq<char>,
    kind: LegacyKind,
)
    requires
        key_done(d, section, legacy, canonical, kind),
    ensures
        migrate_key_spec(d, section, legacy, canonical, kind).0 == d,
{
    match section_of(d, section) {
        Some(t) => if t.contains_key(legacy) && accepts(kind, t[legacy]) {
            assert(d.insert(section, ItemView::Section(t)) =~= d);
        },
        None => {},
    }
}

proof fn lemma_bind_step_fixed(d: Map<Seq<char>, ItemView>)
    requires
        bind_done(d),
    ensures
        migrate_bind_spec(d).0 == d,
{
    match section_of(d, "gateway"@) {
        Some(t) => if t.contains_key("bind"@) && t["bind"@] is Text {
            if last_colon(t["bind"@]->Text_0) is Some {
                assert(d.insert("gateway"@, ItemView::Section(t)) =~= d);
            }
        },
        None => {},
    }
}

proof fn lemma_infer_step_fixed(d: Map<Seq<char>, ItemView>)
    requires
        infer_done(d),
    ensures
        infer_network_spec(d).0 == d,
        infer_network_spec(d).1 == Seq::<Seq<char>>::empty(),
{
}

/// No legacy key is one a migration adds.
proof fn lemma_legacy_keys_not_added()
    ensures
        !added_key("primary"@),
        !added_key("default"@),
        !added_key("fallbacks"@),
        !added_key("require_authentication"@),
        !added_key("allowed_origin"@),
        !added_key("origin_whitelist"@),
        !added_key("bind"@),
        added_key("default_provider"@),
        added_key("fallback_chain"@),
        added_key("require_auth"@),
        added_key("allowed_origins"@),
{
    reveal_strlit("default_provider");
    reveal_strlit("fallback_chain");
    reveal_strlit("require_auth");
    reveal_strlit("allowed_origins");
    reveal_strlit("host");
    reveal_strlit("port");
    reveal_strlit("network_mode");
    reveal_strlit("primary");
    reveal_strlit("default");
    reveal_strlit("fallbacks");
    reveal_strlit("require_authentication");
    reveal_strlit("allowed_origin");
    reveal_strlit("origin_whitelist");
    reveal_strlit("bind");
    assert("primary"@.len() == 7);
    assert("default"@.len() == 7);
    assert("fallbacks"@.len() == 9);
    assert("require_authentication"@.len() == 22);
    assert("allowed_origin"@.len() == 14);
    assert("origin_whitelist"@.len() == 16);
    assert("bind"@.len() == 4);
    assert("default_provider"@.len() == 16);
    assert("fallback_chain"@.len() == 14);
    assert("require_auth"@.len() == 12);
    assert("allowed_origins"@.len() == 15);
    assert("host"@.len() == 4);
    assert("port"@.len() == 4);
    assert("network_mode"@.len() == 12);
    assert("allowed_origin"@[0] != "fallback_chain"@[0]);
    assert("origin_whitelist"@[0] != "default_provider"@[0]);
    assert("bind"@[0] != "host"@[0]);
    assert("bind"@[0] != "port"@[0]);
}

/// Migrating a document that was migrated changes nothing and infers
/// nothing more: the document after one migration is a fixed point of it.
pub proof fn law_migration_settles(doc: Map<Seq<char>, ItemView>)
    ensures
        migration_spec(migration_spec(doc).0).0 == migration_spec(doc).0,
        migration_spec(migration_spec(doc).0).2 == Seq::<Seq<char>>::empty(),
{
    lemma_legacy_keys_not_added();
    let p = "providers"@;
    let s = "security"@;
    let g = "gateway"@;
    let (d1, i1) = migrate_key_spec(doc, p, "primary"@, "default_provider"@, LegacyKind::Single);
    let (d2, i2) = migrate_key_spec(d1, p, "default"@, "default_provider"@, LegacyKind::Single);
    let (d3, i3) = migrate_key_spec(d2, p, "fallbacks"@, "fallback_chain"@, LegacyKind::List);
    let (d4, i4) = migrate_key_spec(d3, s, "require_authentication"@, "require_auth"@, LegacyKind::Single);
    let (d5, i5) = migrate_key_spec(d4, g, "allowed_origin"@, "allowed_origins"@, LegacyKind::Single);
    let (d6, i6) = migrate_key_spec(d5, g, "origin_whitelist"@, "allowed_origins"@, LegacyKind::List);
    let (d7, i7) = migrate_bind_spec(d6);
    let (d8, n) = infer_network_spec(d7);
    lemma_key_step_adds(doc, p, "primary"@, "default_provider"@, LegacyKind::Single);
    lemma_key_step_adds(d1, p, "default"@, "default_provider"@, LegacyKind::Single);
    lemma_key_step_adds(d2, p, "fallbacks"@, "fallback_chain"@, LegacyKind::List);
    lemma_key_step_adds(d3, s, "require_authentication"@, "require_auth"@, LegacyKind::Single);
    lemma_key_step_adds(d4, g, "allowed_origin"@, "allowed_origins"@, LegacyKind::Single);
    lemma_key_step_adds(d5, g, "origin_whitelist"@, "allowed_origins"@, LegacyKind::List);
    lemma_bind_step_adds(d6);
    lemma_infer_step_adds(d7);
    // Each step's result only grows into the final document.
    lemma_only_adds_trans(d6, d7, d8);
    lemma_only_adds_trans(d5, d6, d8);
    lemma_only_adds_trans(d4, d5, d8);
    lemma_only_adds_trans(d3, d4, d8);
    lemma_only_adds_trans(d2, d3, d8);
    lemma_only_adds_trans(d1, d2, d8);
    lemma_key_done_kept(d1, d8, p, "primary"@, "default_provider"@, LegacyKind::Single);
    lemma_key_done_kept(d2, d8, p, "default"@, "default_provider"@, LegacyKind::Single);
    lemma_key_done_kept(d3, d8, p, "fallbacks"@, "fallback_chain"@, LegacyKind::List);
    lemma_key_done_kept(d4, d8, s, "require_authentication"@, "require_auth"@, LegacyKind::Single);
    lemma_key_done_kept(d5, d8, g, "allowed_origin"@, "allowed_origins"@, LegacyKind::Single);
    lemma_key_done_kept(d6, d8, g, "origin_whitelist"@, "allowed_origins"@, LegacyKind::List);
    lemma_bind_done_kept(d7, d8);
    // The second migration leaves each step's input as it is.
    lemma_key_step_fixed(d8, p, "primary"@, "default_provider"@, LegacyKind::Single);
    lemma_key_step_fixed(d8, p, "default"@, "default_provider"@, LegacyKind::Single);
    lemma_key_step_fixed(d8, p, "fallbacks"@, "fallback_chain"@, LegacyKind::List);
    lemma_key_step_fixed(d8, s, "require_authentication"@, "require_auth"@, LegacyKind::Single);
    lemma_key_step_fixed(d8, g, "allowed_origin"@, "allowed_origins"@, LegacyKind::Single);
    lemma_key_step_fixed(d8, g, "origin_whitelist"@, "allowed_origins"@, LegacyKind::List);
    lemma_bind_step_fixed(d8);
    lemma_infer_step_fixed(d8);
}

} // verus!
