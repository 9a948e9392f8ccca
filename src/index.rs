//! The mapping index: every character of the table that an entry claims, with
//! the entry it leads to, and the conversions that read it.
use crate::entry::{lacks_japanese, parse_line, parse_row, Entry, EntryModel};
use crate::hashed::{
    char_set_contains, char_set_contents, key_map_contents, key_map_get, key_map_insert,
    new_key_map,
};
use crate::text::{chars_of, split_chars, split_on, string_from_chars, views};
use fnv::{FnvHashMap, FnvHashSet};
use vstd::prelude::*;

verus! {

/// `m` with `c` leading to `e`, unless `c` already leads somewhere.
pub open spec fn claim(m: Map<char, EntryModel>, c: char, e: EntryModel) -> Map<char, EntryModel> {
    if m.contains_key(c) {
        m
    } else {
        m.insert(c, e)
    }
}

/// `m` after taking in entry `e`: its Japanese character leads to it in any case;
/// then its first Traditional and its first Simplified variant are claimed for it.
pub open spec fn add_entry(m: Map<char, EntryModel>, e: EntryModel) -> Map<char, EntryModel> {
    let m1 = m.insert(e.japanese, e);
    let m2 = if e.traditional_chinese.len() > 0 {
        claim(m1, e.traditional_chinese[0], e)
    } else {
        m1
    };
    if e.simplified_chinese.len() > 0 {
        claim(m2, e.simplified_chinese[0], e)
    } else {
        m2
    }
}

/// Whether an entry passes the filter on Japanese characters, if there is one.
pub open spec fn admitted(e: EntryModel, filter: Option<Set<char>>) -> bool {
    match filter {
        Some(k) => k.contains(e.japanese),
        None => true,
    }
}

/// The index built from the rows in order: rows that do not parse, and entries
/// that the filter turns away, leave it as it was.
pub open spec fn index_of_rows(rows: Seq<Seq<char>>, filter: Option<Set<char>>) -> Map<
    char,
    EntryModel,
>
    decreases rows.len(),
{
    if rows.len() == 0 {
        Map::empty()
    } else {
        let m = index_of_rows(rows.drop_last(), filter);
        match parse_line(rows.last()) {
            Some(e) => if admitted(e, filter) {
                add_entry(m, e)
            } else {
                m
            },
            None => m,
        }
    }
}

/// The rows of a table: its lines.
pub open spec fn rows_of(table: Seq<char>) -> Seq<Seq<char>> {
    split_on(table, '\n')
}

/// The index that a table gives under a filter.
pub open spec fn index_of_table(table: Seq<char>, filter: Option<Set<char>>) -> Map<
    char,
    EntryModel,
> {
    index_of_rows(rows_of(table), filter)
}

/// No row of the table has three fields with an empty Japanese field.
pub open spec fn table_complete(table: Seq<char>) -> bool {
    forall|i: int| 0 <= i < rows_of(table).len() ==> !lacks_japanese(#[trigger] rows_of(table)[i])
}

/// The filter that an optional character set stands for.
pub open spec fn filter_of(kanji: Option<&FnvHashSet<char>>) -> Option<Set<char>> {
    match kanji {
        Some(k) => Some(char_set_contents(*k)),
        None => None,
    }
}

/// The three scripts a text can be converted to.
#[derive(Clone, Copy, Debug, PartialEq, Eq)]
pub enum Script {
    Japanese,
    Traditional,
    Simplified,
}

/// What character `c` becomes in `script`: the Japanese character of its entry,
/// or the entry's first variant in that script; `c` itself where it has no
/// entry, or the entry lists no variant in that script.
pub open spec fn convert_char(m: Map<char, EntryModel>, script: Script, c: char) -> char {
    if !m.contains_key(c) {
        c
    } else {
        match script {
            Script::Japanese => m[c].japanese,
            Script::Traditional => if m[c].traditional_chinese.len() > 0 {
                m[c].traditional_chinese[0]
            } else {
                c
            },
            Script::Simplified => if m[c].simplified_chinese.len() > 0 {
                m[c].simplified_chinese[0]
            } else {
                c
            },
        }
    }
}

/// A text converted to `script`, character by character.
pub open spec fn convert_text(m: Map<char, EntryModel>, script: Script, s: Seq<char>) -> Seq<
    char,
> {
    s.map_values(|c: char| convert_char(m, script, c))
}

/// The mapping index: each claimed character leads to the position of its entry.
pub struct Index {
    entries: Vec<Entry>,
    keys: FnvHashMap<char, usize>,
}

impl View for Index {
    type V = Map<char, EntryModel>;

    closed spec fn view(&self) -> Map<char, EntryModel> {
        Map::new(
            |c: char| key_map_contents(self.keys).contains_key(c),
            |c: char| self.entries@[key_map_contents(self.keys)[c] as int]@,
        )
    }
}

impl Index {
    /// Every key leads to a stored entry.
    pub closed spec fn wf(&self) -> bool {
        forall|c: char| #[trigger]
            key_map_contents(self.keys).contains_key(c) ==> key_map_contents(self.keys)[c]
                < self.entries.len()
    }

    closed spec fn size(&self) -> nat {
        self.entries@.len()
    }

    fn new() -> (r: Index)
        ensures
            r.wf(),
            r@ == Map::<char, EntryModel>::empty(),
            r.size() == 0,
    {
        let r = Index { entries: Vec::new(), keys: new_key_map() };
        assert(r@ =~= Map::<char, EntryModel>::empty());
        r
    }

    /// Takes in one entry.
    fn add(&mut self, e: Entry)
        requires
            old(self).wf(),
            old(self).size() < usize::MAX,
        ensures
            final(self).wf(),
            final(self)@ == add_entry(old(self)@, e@),
            final(self).size() == old(self).size() + 1,
    {
        let ghost m0 = self@;
        let ghost em = e@;
        let pos = self.entries.len();
        let japanese = e.japanese;
        let first_traditional = if e.traditional_chinese.len() > 0 {
            Some(e.traditional_chinese[0])
        } else {
            None
        };
        let first_simplified = if e.simplified_chinese.len() > 0 {
            Some(e.simplified_chinese[0])
        } else {
            None
        };
        self.entries.push(e);
        assert(self@ =~= m0);
        key_map_insert(&mut self.keys, japanese, pos);
        let ghost m1 = m0.insert(japanese, em);
        assert(self@ =~= m1);
        if let Some(c) = first_traditional {
            if key_map_get(&self.keys, c).is_none() {
                key_map_insert(&mut self.keys, c, pos);
            }
            assert(self@ =~= claim(m1, c, em));
        }
        let ghost m2 = self@;
        if let Some(c) = first_simplified {
            if key_map_get(&self.keys, c).is_none() {
                key_map_insert(&mut self.keys, c, pos);
            }
            assert(self@ =~= claim(m2, c, em));
        }
    }

    /// The entry that character `c` leads to, if any.
    pub fn lookup(&self, c: char) -> (r: Option<&Entry>)
        requires
            self.wf(),
        ensures
            match r {
                Some(e) => self@.contains_key(c) && self@[c] == e@,
                None => !self@.contains_key(c),
            },
    {
        match key_map_get(&self.keys, c) {
            Some(i) => Some(&self.entries[i]),
            None => None,
        }
    }

    /// What character `c` becomes in `script`.
    pub fn convert_char(&self, script: Script, c: char) -> (r: char)
        requires
            self.wf(),
        ensures
            r == convert_char(self@, script, c),
    {
        match self.lookup(c) {
            None => c,
            Some(e) => match script {
                Script::Japanese => e.japanese,
                Script::Traditional => if e.traditional_chinese.len() > 0 {
                    e.traditional_chinese[0]
                } else {
                    c
                },
                Script::Simplified => if e.simplified_chinese.len() > 0 {
                    e.simplified_chinese[0]
                } else {
                    c
                },
            },
        }
    }

    /// Converts a text to `script`, character by character; the result has as
    /// many characters as the input.
    pub fn convert(&self, script: Script, input: &str) -> (r: String)
        requires
            self.wf(),
        ensures
            r@ == convert_text(self@, script, input@),
            r@.len() == input@.len(),
    {
        let chars = chars_of(input);
        let mut out: Vec<char> = Vec::new();
        let mut i: usize = 0;
        while i < chars.len()
            invariant
                i <= chars.len(),
                chars@ == input@,
                self.wf(),
                out@ == convert_text(self@, script, chars@.take(i as int)),
            decreases chars.len() - i,
        {
            out.push(self.convert_char(script, chars[i]));
            i = i + 1;
            assert(out@ =~= convert_text(self@, script, chars@.take(i as int)));
        }
        assert(chars@.take(i as int) == chars@);
        string_from_chars(&out)
    }
}

/// Builds the index from a table, one row per line, keeping only the entries
/// whose Japanese character is in `kanji` where a set is given. `Err(i)` where
/// row `i` is the first with three fields and an empty Japanese field.
pub fn build_index(table: &str, kanji: Option<&FnvHashSet<char>>) -> (r: Result<Index, usize>)
    ensures
        match r {
            Ok(idx) => idx.wf() && table_complete(table@) && idx@ == index_of_table(
                table@,
                filter_of(kanji),
            ),
            Err(i) => i < rows_of(table@).len() && lacks_japanese(rows_of(table@)[i as int])
                && forall|j: int| 0 <= j < i ==> !lacks_japanese(#[trigger] rows_of(table@)[j]),
        },
{
    let chars = chars_of(table);
    let rows = split_chars(&chars, '\n');
    let ghost filter = filter_of(kanji);
    let mut idx = Index::new();
    let mut i: usize = 0;
    while i < rows.len()
        invariant
            i <= rows.len(),
            views(rows@) == rows_of(table@),
            filter == filter_of(kanji),
            idx.wf(),
            idx.size() <= i,
            idx@ == index_of_rows(views(rows@).take(i as int), filter),
            forall|j: int| 0 <= j < i ==> !lacks_japanese(#[trigger] views(rows@)[j]),
        decreases rows.len() - i,
    {
        assert(views(rows@)[i as int] == rows@[i as int]@);
        assert(views(rows@).take(i + 1).drop_last() == views(rows@).take(i as int));
        assert(views(rows@).take(i + 1).last() == rows@[i as int]@);
        match parse_row(&rows[i]) {
            Err(_) => {
                return Err(i);
            },
            Ok(None) => {},
            Ok(Some(e)) => {
                let keep = match kanji {
                    Some(k) => char_set_contains(k, e.japanese),
                    None => true,
                };
                if keep {
                    idx.add(e);
                }
            },
        }
        i = i + 1;
    }
    assert(views(rows@).take(i as int) == views(rows@));
    Ok(idx)
}

} // verus!
