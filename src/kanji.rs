//! The set of canonical Japanese Kanji, read from a list with one per line.
use crate::hashed::{char_set_contents, char_set_insert, new_char_set};
use crate::text::{chars_of, split_chars, split_on, trim, trim_bounds, views};
use fnv::FnvHashSet;
use vstd::prelude::*;

verus! {

/// The characters a list of lines names: the first character of each line once
/// trimmed; lines that are blank name none.
pub open spec fn kanji_of_lines(lines: Seq<Seq<char>>) -> Set<char>
    decreases lines.len(),
{
    if lines.len() == 0 {
        Set::empty()
    } else {
        let k = kanji_of_lines(lines.drop_last());
        let t = trim(lines.last());
        if t.len() > 0 {
            k.insert(t[0])
        } else {
            k
        }
    }
}

/// The characters a list names, one per line.
pub open spec fn kanji_set_of(text: Seq<char>) -> Set<char> {
    kanji_of_lines(split_on(text, '\n'))
}

/// Reads a list of Kanji, one per line: the first character of each trimmed,
/// non-blank line.
pub fn kanji_set(text: &str) -> (r: FnvHashSet<char>)
    ensures
        char_set_contents(r) == kanji_set_of(text@),
{
    let chars = chars_of(text);
    let lines = split_chars(&chars, '\n');
    let mut set = new_char_set();
    let mut i: usize = 0;
    while i < lines.len()
        invariant
            i <= lines.len(),
            views(lines@) == split_on(text@, '\n'),
            char_set_contents(set) == kanji_of_lines(views(lines@).take(i as int)),
        decreases lines.len() - i,
    {
        assert(views(lines@).take(i + 1).drop_last() == views(lines@).take(i as int));
        assert(views(lines@).take(i + 1).last() == lines@[i as int]@);
        let (a, b) = trim_bounds(&lines[i]);
        if a < b {
            char_set_insert(&mut set, lines[i][a]);
        }
        i = i + 1;
    }
    assert(views(lines@).take(i as int) == views(lines@));
    set
}

} // verus!
