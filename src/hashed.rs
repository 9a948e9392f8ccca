//! The hashed collections of the index and the character helpers that come
//! from outside the verified code.
use fnv::{FnvHashMap, FnvHashSet};
use vstd::prelude::*;

verus! {

/// fnv's hasher, carried opaquely inside the hashed collections.
#[verifier::external_type_specification]
#[verifier::external_body]
pub struct ExFnvHasher(fnv::FnvHasher);

/// std's builder of default hashers, which fnv's collections are parameterised by.
#[verifier::external_type_specification]
#[verifier::external_body]
#[verifier::reject_recursive_types(H)]
pub struct ExBuildHasherDefault<H>(std::hash::BuildHasherDefault<H>);

/// The keys of a character map of the index, each with the position it is mapped to.
pub uninterp spec fn key_map_contents(m: FnvHashMap<char, usize>) -> Map<char, usize>;

/// The characters that a character set holds.
pub uninterp spec fn char_set_contents(s: FnvHashSet<char>) -> Set<char>;

/// Relies on `HashMap::default` under fnv's `FnvBuildHasher`: the new map holds no key.
#[verifier::external_body]
pub(crate) fn new_key_map() -> (m: FnvHashMap<char, usize>)
    ensures
        key_map_contents(m).dom() == Set::<char>::empty(),
{
    FnvHashMap::default()
}

/// Relies on `HashMap::get`: the value stored under `c`, if `c` is a key.
#[verifier::external_body]
pub(crate) fn key_map_get(m: &FnvHashMap<char, usize>, c: char) -> (r: Option<usize>)
    ensures
        match r {
            Some(i) => key_map_contents(*m).contains_key(c) && key_map_contents(*m)[c] == i,
            None => !key_map_contents(*m).contains_key(c),
        },
{
    m.get(&c).copied()
}

/// Relies on `HashMap::insert`: `c` maps to `i` afterwards, replacing any earlier value,
/// and every other key keeps its value.
#[verifier::external_body]
pub(crate) fn key_map_insert(m: &mut FnvHashMap<char, usize>, c: char, i: usize)
    ensures
        key_map_contents(*final(m)) == key_map_contents(*old(m)).insert(c, i),
{
    m.insert(c, i);
}

/// Relies on `HashSet::default` under fnv's `FnvBuildHasher`: the new set is empty.
#[verifier::external_body]
pub(crate) fn new_char_set() -> (s: FnvHashSet<char>)
    ensures
        char_set_contents(s) == Set::<char>::empty(),
{
    FnvHashSet::default()
}

/// Relies on `HashSet::insert`: the set gains `c` and keeps what it held.
#[verifier::external_body]
pub(crate) fn char_set_insert(s: &mut FnvHashSet<char>, c: char)
    ensures
        char_set_contents(*final(s)) == char_set_contents(*old(s)).insert(c),
{
    s.insert(c);
}

/// Relies on `HashSet::contains`: whether the set holds `c`.
#[verifier::external_body]
pub(crate) fn char_set_contains(s: &FnvHashSet<char>, c: char) -> (r: bool)
    ensures
        r == char_set_contents(*s).contains(c),
{
    s.contains(&c)
}

} // verus!
