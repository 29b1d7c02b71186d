//! The shape of an album definition document: scalars, arrays and hashes.

use vstd::prelude::*;
use vstd::string::StringExecFns;

verus! {

/// A value of a definition document. A hash keeps its entries in the order in
/// which they were written.
#[derive(Debug, PartialEq, Eq)]
pub enum Yaml {
    /// A floating point number, kept as it was written.
    Real(String),
    /// An integer.
    Integer(i64),
    /// A string.
    String(String),
    /// A boolean.
    Boolean(bool),
    /// An array of values.
    Array(Vec<Yaml>),
    /// A hash from keys to values.
    Hash(Vec<(Yaml, Yaml)>),
    /// A reference to an anchor.
    Alias(usize),
    /// The null value.
    Null,
    /// What was read and could not be understood.
    BadValue,
}

/// Whether an entry of a hash has the string `key` as its key.
pub open spec fn spec_has_key(entry: (Yaml, Yaml), key: Seq<char>) -> bool {
    entry.0 matches Yaml::String(s) && s@ == key
}

/// The position of the first entry of `hash` from `start` on whose key is `key`.
pub open spec fn spec_key_index(hash: Seq<(Yaml, Yaml)>, key: Seq<char>, start: int) -> Option<int>
    decreases hash.len() - start,
{
    if start < 0 || start >= hash.len() {
        None
    } else if spec_has_key(hash[start], key) {
        Some(start)
    } else {
        spec_key_index(hash, key, start + 1)
    }
}

/// The value that `hash` holds for `key`: that of the first entry with this key.
pub open spec fn spec_get(hash: Seq<(Yaml, Yaml)>, key: Seq<char>) -> Option<Yaml> {
    match spec_key_index(hash, key, 0) {
        Some(i) => Some(hash[i].1),
        None => None,
    }
}

/// Where `spec_key_index` finds an entry, it has the key, and no entry
/// between `start` and it has.
pub proof fn lemma_key_index(hash: Seq<(Yaml, Yaml)>, key: Seq<char>, start: int)
    requires
        0 <= start,
    ensures
        match spec_key_index(hash, key, start) {
            Some(i) => start <= i < hash.len() && spec_has_key(hash[i], key) && forall|j: int|
                start <= j < i ==> !spec_has_key(#[trigger] hash[j], key),
            None => forall|j: int|
                start <= j < hash.len() ==> !spec_has_key(#[trigger] hash[j], key),
        },
    decreases hash.len() - start,
{
    if start < hash.len() && !spec_has_key(hash[start], key) {
        lemma_key_index(hash, key, start + 1);
    }
}

/// The first entry with the key, once found, is what `spec_key_index` gives.
pub proof fn lemma_key_index_is_first(hash: Seq<(Yaml, Yaml)>, key: Seq<char>, start: int, i: int)
    requires
        0 <= start <= i < hash.len(),
        spec_has_key(hash[i], key),
        forall|j: int| start <= j < i ==> !spec_has_key(#[trigger] hash[j], key),
    ensures
        spec_key_index(hash, key, start) == Some(i),
    decreases i - start,
{
    if start < i {
        lemma_key_index_is_first(hash, key, start + 1, i);
    }
}

/// No entry has the key, so `spec_key_index` finds none.
pub proof fn lemma_key_index_none(hash: Seq<(Yaml, Yaml)>, key: Seq<char>, start: int)
    requires
        0 <= start,
        forall|j: int| start <= j < hash.len() ==> !spec_has_key(#[trigger] hash[j], key),
    ensures
        spec_key_index(hash, key, start) is None,
    decreases hash.len() - start,
{
    if start < hash.len() {
        lemma_key_index_none(hash, key, start + 1);
    }
}

/// Removing an entry leaves what the hash holds for every other key.
pub proof fn lemma_get_after_remove(hash: Seq<(Yaml, Yaml)>, i: int, key: Seq<char>)
    requires
        0 <= i < hash.len(),
        !spec_has_key(hash[i], key),
    ensures
        spec_get(hash.remove(i), key) == spec_get(hash, key),
{
    let rest = hash.remove(i);
    lemma_key_index(hash, key, 0);
    match spec_key_index(hash, key, 0) {
        Some(k) => {
            let k2 = if k < i {
                k
            } else {
                k - 1
            };
            assert(rest[k2] == hash[k]);
            assert forall|j: int| 0 <= j < k2 implies !spec_has_key(#[trigger] rest[j], key) by {
                if j < i {
                    assert(rest[j] == hash[j]);
                } else {
                    assert(rest[j] == hash[j + 1]);
                }
            }
            lemma_key_index_is_first(rest, key, 0, k2);
        },
        None => {
            assert forall|j: int| 0 <= j < rest.len() implies !spec_has_key(
                #[trigger] rest[j],
                key,
            ) by {
                if j < i {
                    assert(rest[j] == hash[j]);
                } else {
                    assert(rest[j] == hash[j + 1]);
                }
            }
            lemma_key_index_none(rest, key, 0);
        },
    }
}

impl Yaml {
    /// The entries of a hash; `None` for any other value.
    pub fn into_hash(self) -> (r: Option<Vec<(Yaml, Yaml)>>)
        ensures
            match self {
                Yaml::Hash(h) => r == Some(h),
                _ => r is None,
            },
    {
        match self {
            Yaml::Hash(h) => Some(h),
            _ => None,
        }
    }

    /// The items of an array; `None` for any other value.
    pub fn into_vec(self) -> (r: Option<Vec<Yaml>>)
        ensures
            match self {
                Yaml::Array(v) => r == Some(v),
                _ => r is None,
            },
    {
        match self {
            Yaml::Array(v) => Some(v),
            _ => None,
        }
    }
}

/// Whether the key of an entry is the string `key`.
fn has_key(entry: &(Yaml, Yaml), key: &String) -> (r: bool)
    ensures
        r == spec_has_key(*entry, key@),
{
    match &entry.0 {
        Yaml::String(s) => *s == *key,
        _ => false,
    }
}

/// Takes the value for `key` out of a hash. What the hash holds for other
/// keys stays as it was.
pub fn take_key(hash: &mut Vec<(Yaml, Yaml)>, key: &str) -> (r: Option<Yaml>)
    ensures
        r == spec_get(old(hash)@, key@),
        match spec_key_index(old(hash)@, key@, 0) {
            Some(i) => final(hash)@ == old(hash)@.remove(i),
            None => final(hash)@ == old(hash)@,
        },
        forall|other: Seq<char>|
            other != key@ ==> #[trigger] spec_get(final(hash)@, other) == spec_get(
                old(hash)@,
                other,
            ),
{
    let wanted = String::from_str(key);
    let mut i: usize = 0;
    while i < hash.len()
        invariant
            i <= hash.len(),
            wanted@ == key@,
            *hash == *old(hash),
            forall|j: int| 0 <= j < i ==> !spec_has_key(#[trigger] hash@[j], key@),
        decreases hash.len() - i,
    {
        if has_key(&hash[i], &wanted) {
            proof {
                lemma_key_index_is_first(hash@, key@, 0, i as int);
                assert forall|other: Seq<char>| other != key@ implies #[trigger] spec_get(
                    hash@.remove(i as int),
                    other,
                ) == spec_get(hash@, other) by {
                    lemma_get_after_remove(hash@, i as int, other);
                }
            }
            let entry = hash.remove(i);
            return Some(entry.1);
        }
        i = i + 1;
    }
    proof {
        lemma_key_index_none(hash@, key@, 0);
    }
    None
}

/// The mathematical value of a [`Yaml`].
pub enum YamlView {
    /// A floating point number, kept as it was written.
    Real(Seq<char>),
    /// An integer.
    Integer(i64),
    /// A string.
    String(Seq<char>),
    /// A boolean.
    Boolean(bool),
    /// An array of values.
    Array(Seq<YamlView>),
    /// A hash from keys to values.
    Hash(Seq<(YamlView, YamlView)>),
    /// A reference to an anchor.
    Alias(usize),
    /// The null value.
    Null,
    /// What was read and could not be understood.
    BadValue,
}

/// Whether a document has the given mathematical value.
pub open spec fn represents(yaml: Yaml, view: YamlView) -> bool
    decreases view,
{
    match view {
        YamlView::Real(t) => yaml matches Yaml::Real(s) && s@ == t,
        YamlView::Integer(b) => yaml matches Yaml::Integer(a) && a == b,
        YamlView::String(t) => yaml matches Yaml::String(s) && s@ == t,
        YamlView::Boolean(b) => yaml matches Yaml::Boolean(a) && a == b,
        YamlView::Array(views) => yaml matches Yaml::Array(items) && items@.len() == views.len()
            && forall|i: int|
            0 <= i < views.len() ==> represents(items@[i], #[trigger] views[i]),
        YamlView::Hash(views) => yaml matches Yaml::Hash(entries) && entries@.len() == views.len()
            && forall|i: int|
            0 <= i < views.len() ==> represents(entries@[i].0, (#[trigger] views[i]).0)
                && represents(entries@[i].1, views[i].1),
        YamlView::Alias(b) => yaml matches Yaml::Alias(a) && a == b,
        YamlView::Null => yaml is Null,
        YamlView::BadValue => yaml is BadValue,
    }
}

/// A string as a document.
pub fn string_yaml(s: &str) -> (r: Yaml)
    ensures
        represents(r, YamlView::String(s@)),
{
    Yaml::String(String::from_str(s))
}

/// Adds an entry to a hash that is being built.
pub(crate) fn push_entry(
    entries: &mut Vec<(Yaml, Yaml)>,
    key: &str,
    value: Yaml,
    Ghost(views): Ghost<Seq<(YamlView, YamlView)>>,
    Ghost(view): Ghost<YamlView>,
)
    requires
        represents(Yaml::Hash(*old(entries)), YamlView::Hash(views)),
        represents(value, view),
    ensures
        represents(
            Yaml::Hash(*final(entries)),
            YamlView::Hash(views.push((YamlView::String(key@), view))),
        ),
{
    let k = string_yaml(key);
    entries.push((k, value));
    proof {
        let now = views.push((YamlView::String(key@), view));
        assert forall|i: int| 0 <= i < now.len() implies represents(
            entries@[i].0,
            (#[trigger] now[i]).0,
        ) && represents(entries@[i].1, now[i].1) by {
            if i < views.len() {
                assert(now[i] == views[i]);
                assert(entries@[i] == old(entries)@[i]);
            }
        }
    }
}

/// Adds an item to an array that is being built.
pub(crate) fn push_item(
    items: &mut Vec<Yaml>,
    value: Yaml,
    Ghost(views): Ghost<Seq<YamlView>>,
    Ghost(view): Ghost<YamlView>,
)
    requires
        represents(Yaml::Array(*old(items)), YamlView::Array(views)),
        represents(value, view),
    ensures
        represents(Yaml::Array(*final(items)), YamlView::Array(views.push(view))),
{
    items.push(value);
    proof {
        let now = views.push(view);
        assert forall|i: int| 0 <= i < now.len() implies represents(
            items@[i],
            #[trigger] now[i],
        ) by {
            if i < views.len() {
                assert(now[i] == views[i]);
                assert(items@[i] == old(items)@[i]);
            }
        }
    }
}

} // verus!
