//! The parsed form of a configuration document: named settings, each a scalar
//! or a table of named scalars, as the TOML reader of the `config` crate gives them.
use config::{File, FileFormat, Source, ValueKind};
use vstd::prelude::*;

verus! {

/// A scalar value of a document. Floats, arrays and tables nested below the
/// second level are `Other`: no field of a node's record can take them.
#[derive(Debug)]
pub enum Scalar {
    Str(String),
    Int(i64),
    Bool(bool),
    Other,
}

/// A top-level entry of a document: a scalar, or a table of named scalars.
#[derive(Debug)]
pub enum Setting {
    Value(Scalar),
    Table(Vec<(String, Scalar)>),
}

/// Model of a `Scalar`.
pub enum ScalarView {
    Str(Seq<char>),
    Int(int),
    Bool(bool),
    Other,
}

/// Model of a `Setting`: a table is a map from key to scalar.
pub enum SettingView {
    Value(ScalarView),
    Table(Map<Seq<char>, ScalarView>),
}

impl View for Scalar {
    type V = ScalarView;

    open spec fn view(&self) -> ScalarView {
        match self {
            Scalar::Str(s) => ScalarView::Str(s@),
            Scalar::Int(i) => ScalarView::Int(*i as int),
            Scalar::Bool(b) => ScalarView::Bool(*b),
            Scalar::Other => ScalarView::Other,
        }
    }
}

/// The keys of a list of entries, in order.
pub open spec fn keys_of<T>(s: Seq<(String, T)>) -> Seq<Seq<char>> {
    s.map_values(|p: (String, T)| p.0@)
}

/// A list of scalar entries as key/model pairs.
pub open spec fn scalar_pairs(s: Seq<(String, Scalar)>) -> Seq<(Seq<char>, ScalarView)> {
    s.map_values(|p: (String, Scalar)| (p.0@, p.1@))
}

/// The map that a list of pairs denotes; a later entry replaces an earlier one.
pub open spec fn to_map<V>(s: Seq<(Seq<char>, V)>) -> Map<Seq<char>, V>
    decreases s.len(),
{
    if s.len() == 0 {
        Map::empty()
    } else {
        to_map(s.drop_last()).insert(s.last().0, s.last().1)
    }
}

impl View for Setting {
    type V = SettingView;

    open spec fn view(&self) -> SettingView {
        match self {
            Setting::Value(v) => SettingView::Value(v@),
            Setting::Table(t) => SettingView::Table(to_map(scalar_pairs(t@))),
        }
    }
}

/// A list of top-level entries as key/model pairs.
pub open spec fn setting_pairs(s: Seq<(String, Setting)>) -> Seq<(Seq<char>, SettingView)> {
    s.map_values(|p: (String, Setting)| (p.0@, p.1@))
}

/// The model of a list of top-level entries.
pub open spec fn document_view(s: Seq<(String, Setting)>) -> Map<Seq<char>, SettingView> {
    to_map(setting_pairs(s))
}

/// The index of the last occurrence of `k` in `keys`.
pub open spec fn last_index(keys: Seq<Seq<char>>, k: Seq<char>) -> Option<int>
    decreases keys.len(),
{
    if keys.len() == 0 {
        None
    } else if keys.last() == k {
        Some(keys.len() - 1)
    } else {
        last_index(keys.drop_last(), k)
    }
}

/// The last occurrence of a key lies within the list and holds that key.
pub proof fn lemma_last_index_bounds(keys: Seq<Seq<char>>, k: Seq<char>)
    ensures
        last_index(keys, k) matches Some(i) ==> 0 <= i < keys.len() && keys[i] == k,
    decreases keys.len(),
{
    if keys.len() > 0 {
        lemma_last_index_bounds(keys.drop_last(), k);
    }
}

/// The keys of a list of pairs, in order.
pub open spec fn pair_keys<V>(s: Seq<(Seq<char>, V)>) -> Seq<Seq<char>> {
    s.map_values(|p: (Seq<char>, V)| p.0)
}

/// A lookup by the last occurrence of a key agrees with the map of the pairs.
pub proof fn lemma_last_index_to_map<V>(s: Seq<(Seq<char>, V)>, k: Seq<char>)
    ensures
        match last_index(pair_keys(s), k) {
            Some(i) => 0 <= i < s.len() && to_map(s).contains_key(k) && to_map(s)[k] == s[i].1
                && s[i].0 == k,
            None => !to_map(s).contains_key(k),
        },
    decreases s.len(),
{
    if s.len() > 0 {
        let t = s.drop_last();
        lemma_last_index_to_map(t, k);
        assert(pair_keys(s).drop_last() =~= pair_keys(t));
    }
}

/// Appending a pair to a list adds it to the map of the list.
pub proof fn lemma_to_map_push<V>(s: Seq<(Seq<char>, V)>, k: Seq<char>, v: V)
    ensures
        to_map(s.push((k, v))) == to_map(s).insert(k, v),
{
    assert(s.push((k, v)).drop_last() =~= s);
}

/// Appends a top-level entry to a document.
pub fn push_setting(doc: &mut Vec<(String, Setting)>, key: String, value: Setting)
    ensures
        document_view(final(doc)@) == document_view(old(doc)@).insert(key@, value@),
{
    let ghost k = key@;
    let ghost v = value@;
    doc.push((key, value));
    proof {
        assert(setting_pairs(final(doc)@) =~= setting_pairs(old(doc)@).push((k, v)));
        lemma_to_map_push(setting_pairs(old(doc)@), k, v);
    }
}

/// Appends an entry to a table.
pub fn push_scalar(table: &mut Vec<(String, Scalar)>, key: String, value: Scalar)
    ensures
        to_map(scalar_pairs(final(table)@)) == to_map(scalar_pairs(old(table)@)).insert(key@, value@),
{
    let ghost k = key@;
    let ghost v = value@;
    table.push((key, value));
    proof {
        assert(scalar_pairs(final(table)@) =~= scalar_pairs(old(table)@).push((k, v)));
        lemma_to_map_push(scalar_pairs(old(table)@), k, v);
    }
}

/// Whether two strings hold the same characters.
pub fn same_text(a: &str, b: &str) -> (r: bool)
    ensures
        r == (a@ == b@),
{
    let n = a.unicode_len();
    if n != b.unicode_len() {
        return false;
    }
    let mut i: usize = 0;
    while i < n
        invariant
            n == a@.len() == b@.len(),
            i <= n,
            forall|j: int| 0 <= j < i ==> a@[j] == b@[j],
        decreases n - i,
    {
        if a.get_char(i) != b.get_char(i) {
            return false;
        }
        i = i + 1;
    }
    assert(a@ =~= b@);
    true
}

/// The position of the last entry whose key is `key`.
pub fn position<T>(entries: &Vec<(String, T)>, key: &str) -> (r: Option<usize>)
    ensures
        match last_index(keys_of(entries@), key@) {
            Some(i) => r matches Some(p) && p == i && i < entries@.len(),
            None => r is None,
        },
{
    let mut found: Option<usize> = None;
    let mut i: usize = 0;
    while i < entries.len()
        invariant
            i <= entries@.len(),
            match last_index(keys_of(entries@.take(i as int)), key@) {
                Some(j) => found matches Some(p) && p == j,
                None => found is None,
            },
        decreases entries@.len() - i,
    {
        proof {
            let ks = keys_of(entries@.take(i as int + 1));
            assert(ks.drop_last() =~= keys_of(entries@.take(i as int)));
            assert(ks.last() == entries@[i as int].0@);
        }
        if same_text(entries[i].0.as_str(), key) {
            found = Some(i);
        }
        i = i + 1;
    }
    assert(entries@.take(entries@.len() as int) =~= entries@);
    proof {
        lemma_last_index_bounds(keys_of(entries@), key@);
    }
    found
}

/// The error of the `config` crate; only its message is read.
#[verifier::external_type_specification]
#[verifier::external_body]
pub struct ExConfigError(config::ConfigError);

/// The settings that the `config` crate reads from a TOML text, or `None` where
/// it refuses the text. (That crate gives a TOML date or time as a string.)
pub uninterp spec fn toml_settings(text: Seq<char>) -> Option<Map<Seq<char>, SettingView>>;

/// Relies on `config::Source::collect` of a `config::File::from_str` source in
/// `FileFormat::Toml`: it parses the text with the `toml` crate and gives its
/// root table, keys as written, or fails with a `FileParse` error.
#[verifier::external_body]
pub(crate) fn parse_toml(text: &str) -> (r: Result<Vec<(String, Setting)>, config::ConfigError>)
    ensures
        r is Ok <==> toml_settings(text@) is Some,
        r matches Ok(d) ==> toml_settings(text@) == Some(document_view(d@)),
{
    let root = File::from_str(text, FileFormat::Toml).collect()?;
    let scalar = |kind: ValueKind| match kind {
        ValueKind::String(s) => Scalar::Str(s),
        ValueKind::I64(i) => Scalar::Int(i),
        ValueKind::Boolean(b) => Scalar::Bool(b),
        _ => Scalar::Other,
    };
    Ok(root.into_iter().map(|(k, v)| match v.kind {
        ValueKind::Table(t) => (k, Setting::Table(t.into_iter().map(|(k, v)| (k, scalar(v.kind))).collect())),
        kind => (k, Setting::Value(scalar(kind))),
    }).collect())
}

} // verus!
