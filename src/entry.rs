//! One row of the table, and how a row of text is read into it.
use crate::text::{chars_of, split_chars, split_on, trim, trim_bounds, views};
use vstd::prelude::*;

verus! {

/// One row of the table: a Japanese Kanji and its Chinese counterparts, the
/// preferred variant of each script listed first.
#[derive(Debug, Clone)]
pub struct Entry {
    pub japanese: char,
    pub traditional_chinese: Vec<char>,
    pub simplified_chinese: Vec<char>,
}

/// What an entry holds, as values.
pub struct EntryModel {
    pub japanese: char,
    pub traditional_chinese: Seq<char>,
    pub simplified_chinese: Seq<char>,
}

impl View for Entry {
    type V = EntryModel;

    open spec fn view(&self) -> EntryModel {
        EntryModel {
            japanese: self.japanese,
            traditional_chinese: self.traditional_chinese@,
            simplified_chinese: self.simplified_chinese@,
        }
    }
}

/// The token that marks a variant as absent.
pub open spec fn not_available() -> Seq<char> {
    seq!['N', '/', 'A']
}

/// The character that one comma-separated part of a variants field contributes:
/// the first character of the trimmed part, unless the part is empty or the
/// absence token.
pub open spec fn variant_of(part: Seq<char>) -> Option<char> {
    let t = trim(part);
    if t == not_available() || t.len() == 0 {
        None
    } else {
        Some(t[0])
    }
}

/// The characters that a sequence of parts contributes, in order.
pub open spec fn variants_of_parts(parts: Seq<Seq<char>>) -> Seq<char>
    decreases parts.len(),
{
    if parts.len() == 0 {
        Seq::empty()
    } else {
        let v = variants_of_parts(parts.drop_last());
        match variant_of(parts.last()) {
            Some(c) => v.push(c),
            None => v,
        }
    }
}

/// The variants listed in a comma-separated field.
pub open spec fn variants_of(field: Seq<char>) -> Seq<char> {
    variants_of_parts(split_on(field, ','))
}

/// The tab-separated fields of a row.
pub open spec fn fields_of(line: Seq<char>) -> Seq<Seq<char>> {
    split_on(line, '\t')
}

/// A row in the three-field shape whose Japanese field is empty.
pub open spec fn lacks_japanese(line: Seq<char>) -> bool {
    fields_of(line).len() == 3 && fields_of(line)[0].len() == 0
}

/// The entry a row stands for: none unless the row has exactly three fields.
pub open spec fn parse_line(line: Seq<char>) -> Option<EntryModel> {
    let fields = fields_of(line);
    if fields.len() != 3 {
        None
    } else {
        Some(
            EntryModel {
                japanese: fields[0][0],
                traditional_chinese: variants_of(fields[1]),
                simplified_chinese: variants_of(fields[2]),
            },
        )
    }
}

/// The character one part of a variants field contributes.
fn variant_from(part: &Vec<char>) -> (r: Option<char>)
    ensures
        r == variant_of(part@),
{
    let (a, b) = trim_bounds(part);
    let ghost t = part@.subrange(a as int, b as int);
    if b - a == 3 && part[a] == 'N' && part[a + 1] == '/' && part[a + 2] == 'A' {
        assert(t == not_available());
        None
    } else if a == b {
        None
    } else {
        assert(t != not_available()) by {
            if t == not_available() {
                assert(t.len() == 3);
                assert(t[0] == 'N' && t[1] == '/' && t[2] == 'A');
                assert(t[0] == part@[a as int] && t[1] == part@[a + 1] && t[2] == part@[a + 2]);
            }
        }
        Some(part[a])
    }
}

/// The variants listed in a comma-separated field.
fn variants_from(field: &Vec<char>) -> (r: Vec<char>)
    ensures
        r@ == variants_of(field@),
{
    let parts = split_chars(field, ',');
    let mut r: Vec<char> = Vec::new();
    let mut j: usize = 0;
    while j < parts.len()
        invariant
            j <= parts.len(),
            views(parts@) == split_on(field@, ','),
            r@ == variants_of_parts(views(parts@).take(j as int)),
        decreases parts.len() - j,
    {
        assert(views(parts@).take(j + 1).drop_last() == views(parts@).take(j as int));
        if let Some(c) = variant_from(&parts[j]) {
            r.push(c);
        }
        j = j + 1;
    }
    assert(views(parts@).take(j as int) == views(parts@));
    r
}

/// Reads a row given as characters: `Err` where the row has three fields and the
/// first is empty, else the entry of `parse_line`.
pub(crate) fn parse_row(line: &Vec<char>) -> (r: Result<Option<Entry>, ()>)
    ensures
        r is Err <==> lacks_japanese(line@),
        r matches Ok(o) ==> match o {
            Some(e) => parse_line(line@) == Some(e@),
            None => parse_line(line@) is None,
        },
{
    let fields = split_chars(line, '\t');
    if fields.len() != 3 {
        return Ok(None);
    }
    if fields[0].len() == 0 {
        return Err(());
    }
    let japanese = fields[0][0];
    let traditional_chinese = variants_from(&fields[1]);
    let simplified_chinese = variants_from(&fields[2]);
    Ok(Some(Entry { japanese, traditional_chinese, simplified_chinese }))
}

impl Entry {
    /// Reads one row of the table: a Japanese character (the first character of
    /// the first field), then the Traditional and the Simplified variants, each a
    /// comma-separated list whose parts are trimmed and whose absence tokens and
    /// empty parts are dropped. `None` unless the row has exactly three
    /// tab-separated fields.
    pub fn from_line(line: &str) -> (r: Option<Entry>)
        requires
            !lacks_japanese(line@),
        ensures
            match r {
                Some(e) => parse_line(line@) == Some(e@),
                None => parse_line(line@) is None,
            },
    {
        let chars = chars_of(line);
        match parse_row(&chars) {
            Ok(o) => o,
            Err(_) => None,
        }
    }
}

} // verus!
