//! The FNV-hashed maps and sets of the `fnv` crate, as the hooks use them.
//!
//! `FnvHashMap<K, V>` and `FnvHashSet<T>` are std's `HashMap`/`HashSet` with the
//! `BuildHasherDefault<FnvHasher>` hasher. Every method called on them goes through
//! a trusted item below. Maps and sets keyed by an integer are described by vstd's
//! view of `HashMap`/`HashSet`; those keyed by a `String` are described by a table
//! keyed by the characters of the key.
use vstd::prelude::*;
use fnv::{FnvHashMap, FnvHashSet, FnvHasher};
use std::hash::BuildHasherDefault;
use crate::il2cpp::hook::UnityEngine_TextRenderingModule::TextGenerator::TextPropertyOverrides;

verus! {

#[verifier::external_type_specification]
#[verifier::external_body]
pub struct ExFnvHasher(FnvHasher);

#[verifier::external_type_specification]
#[verifier::external_body]
#[verifier::reject_recursive_types(H)]
pub struct ExBuildHasherDefault<H>(BuildHasherDefault<H>);

/// The keys of a table walked in some order: each key of the table once.
pub open spec fn lists_each_key_once<V>(keys: Seq<String>, table: Map<Seq<char>, V>) -> bool {
    &&& forall|i: int, j: int| 0 <= i < j < keys.len() ==> keys[i]@ != keys[j]@
    &&& forall|i: int| 0 <= i < keys.len() ==> table.contains_key(#[trigger] keys[i]@)
    &&& forall|k: Seq<char>|
        table.contains_key(k) ==> exists|i: int| 0 <= i < keys.len() && #[trigger] keys[i]@ == k
}

// ---------------------------------------------------------------------------
// Maps keyed by an object's address.
/// `HashMap::insert` on an address-keyed FNV map: the key is bound to the value,
/// and the value it had before is returned.
#[verifier::external_body]
pub(crate) fn addr_map_insert<V>(m: &mut FnvHashMap<usize, V>, k: usize, v: V) -> (r: Option<V>)
    ensures
        final(m)@ == old(m)@.insert(k, v),
        r == (if old(m)@.contains_key(k) {
            Some(old(m)@[k])
        } else {
            None
        }),
{
    m.insert(k, v)
}

/// `HashMap::contains_key` on an address-keyed FNV map.
#[verifier::external_body]
pub(crate) fn addr_map_contains_key<V>(m: &FnvHashMap<usize, V>, k: usize) -> (r: bool)
    ensures
        r == m@.contains_key(k),
{
    m.contains_key(&k)
}

/// `HashMap::get` on an address-keyed FNV map.
#[verifier::external_body]
pub(crate) fn addr_map_get<V>(m: &FnvHashMap<usize, V>, k: usize) -> (r: Option<&V>)
    ensures
        r is Some == m@.contains_key(k),
        r matches Some(v) ==> *v == m@[k],
{
    m.get(&k)
}

// ---------------------------------------------------------------------------
// Sets of instance ids.
/// `HashSet::insert` on an FNV set of ids: the id is a member afterwards, and the
/// result tells whether it was new.
#[verifier::external_body]
pub(crate) fn id_set_insert(s: &mut FnvHashSet<i32>, id: i32) -> (r: bool)
    ensures
        final(s)@ == old(s)@.insert(id),
        r == !old(s)@.contains(id),
{
    s.insert(id)
}

/// `HashSet::contains` on an FNV set of ids.
#[verifier::external_body]
pub(crate) fn id_set_contains(s: &FnvHashSet<i32>, id: i32) -> (r: bool)
    ensures
        r == s@.contains(id),
{
    s.contains(&id)
}

// ---------------------------------------------------------------------------
// Sets of strings.
/// The strings an FNV set of strings holds, by their characters.
pub uninterp spec fn string_set_members(s: FnvHashSet<String>) -> Set<Seq<char>>;

/// `FnvHashSet::default()`: an empty set of strings.
#[verifier::external_body]
pub(crate) fn string_set_new() -> (s: FnvHashSet<String>)
    ensures
        string_set_members(s) == Set::<Seq<char>>::empty(),
{
    FnvHashSet::default()
}

/// `HashSet::contains` on an FNV set of strings, asked with a `&str`.
#[verifier::external_body]
pub(crate) fn string_set_contains(s: &FnvHashSet<String>, key: &str) -> (r: bool)
    ensures
        r == string_set_members(*s).contains(key@),
{
    s.contains(key)
}

/// `HashSet::insert` on an FNV set of strings: the string is a member afterwards,
/// and nothing else changes.
#[verifier::external_body]
pub(crate) fn string_set_insert(s: &mut FnvHashSet<String>, key: String) -> (r: bool)
    ensures
        string_set_members(*final(s)) == string_set_members(*old(s)).insert(key@),
        r == !string_set_members(*old(s)).contains(key@),
{
    s.insert(key)
}

// ---------------------------------------------------------------------------
// Font size overrides by hierarchy path.
/// The font sizes an FNV map of font overrides holds, by the characters of the path.
pub uninterp spec fn font_override_table(m: FnvHashMap<String, i32>) -> Map<Seq<char>, i32>;

/// `HashMap::get` on the font override map, asked with a `&str`.
#[verifier::external_body]
pub(crate) fn font_override_get(m: &FnvHashMap<String, i32>, key: &str) -> (r: Option<i32>)
    ensures
        r == (if font_override_table(*m).contains_key(key@) {
            Some(font_override_table(*m)[key@])
        } else {
            None
        }),
{
    m.get(key).copied()
}

/// `HashMap::keys` on the font override map: every key once, in the map's own order,
/// which this contract leaves open.
#[verifier::external_body]
pub(crate) fn font_override_keys(m: &FnvHashMap<String, i32>) -> (keys: Vec<String>)
    ensures
        lists_each_key_once(keys@, font_override_table(*m)),
{
    m.keys().cloned().collect()
}

// ---------------------------------------------------------------------------
// Text property overrides by hierarchy path.
/// The overrides an FNV map of text property overrides holds, by the characters of the path.
pub uninterp spec fn text_property_table(m: FnvHashMap<String, TextPropertyOverrides>) -> Map<
    Seq<char>,
    TextPropertyOverrides,
>;

/// `HashMap::get` on the text property override map, asked with a `&str`.
#[verifier::external_body]
pub(crate) fn text_property_get<'a>(m: &'a FnvHashMap<String, TextPropertyOverrides>, key: &str) -> (r:
    Option<&'a TextPropertyOverrides>)
    ensures
        r is Some == text_property_table(*m).contains_key(key@),
        r matches Some(v) ==> *v == text_property_table(*m)[key@],
{
    m.get(key)
}

/// `HashMap::keys` on the text property override map: every key once, in the map's
/// own order, which this contract leaves open.
#[verifier::external_body]
pub(crate) fn text_property_keys(m: &FnvHashMap<String, TextPropertyOverrides>) -> (keys: Vec<String>)
    ensures
        lists_each_key_once(keys@, text_property_table(*m)),
{
    m.keys().cloned().collect()
}

} // verus!
