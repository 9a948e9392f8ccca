//! Properties of the index and of the conversions that read it.
use crate::entry::{parse_line, EntryModel};
use crate::index::{add_entry, admitted, claim, convert_char, convert_text, index_of_rows, Script};
use vstd::prelude::*;

verus! {

/// A character without an entry comes out of every conversion unchanged.
pub proof fn lemma_unindexed_char_unchanged(m: Map<char, EntryModel>, script: Script, c: char)
    requires
        !m.contains_key(c),
    ensures
        convert_text(m, script, seq![c]) == seq![c],
{
    assert(convert_text(m, script, seq![c]) =~= seq![c]);
}

/// Every Japanese character that an index leads to leads to an entry with that
/// same Japanese character.
pub open spec fn japanese_closed(m: Map<char, EntryModel>) -> bool {
    forall|c: char| #[trigger]
        m.contains_key(c) ==> m.contains_key(m[c].japanese) && m[m[c].japanese].japanese
            == m[c].japanese
}

/// Taking in an entry keeps an index closed under its Japanese characters.
pub proof fn lemma_add_entry_japanese_closed(m: Map<char, EntryModel>, e: EntryModel)
    requires
        japanese_closed(m),
    ensures
        japanese_closed(add_entry(m, e)),
{
    let m1 = m.insert(e.japanese, e);
    assert(japanese_closed(m1)) by {
        assert forall|c: char| #[trigger] m1.contains_key(c) implies m1.contains_key(
            m1[c].japanese,
        ) && m1[m1[c].japanese].japanese == m1[c].japanese by {
            if c != e.japanese && m[c].japanese != e.japanese {
                assert(m.contains_key(m[c].japanese));
            }
        }
    }
    let m2 = if e.traditional_chinese.len() > 0 {
        claim(m1, e.traditional_chinese[0], e)
    } else {
        m1
    };
    assert(japanese_closed(m2));
    assert(japanese_closed(add_entry(m, e)));
}

/// Every index built from rows is closed under its Japanese characters.
pub proof fn lemma_index_japanese_closed(rows: Seq<Seq<char>>, filter: Option<Set<char>>)
    ensures
        japanese_closed(index_of_rows(rows, filter)),
    decreases rows.len(),
{
    if rows.len() > 0 {
        lemma_index_japanese_closed(rows.drop_last(), filter);
        let m = index_of_rows(rows.drop_last(), filter);
        if let Some(e) = parse_line(rows.last()) {
            lemma_add_entry_japanese_closed(m, e);
        }
    }
}

/// Converting to Japanese twice gives what converting once gives: a text already
/// in Japanese Kanji stays as it is.
pub proof fn lemma_japanese_idempotent(
    rows: Seq<Seq<char>>,
    filter: Option<Set<char>>,
    s: Seq<char>,
)
    ensures
        convert_text(
            index_of_rows(rows, filter),
            Script::Japanese,
            convert_text(index_of_rows(rows, filter), Script::Japanese, s),
        ) == convert_text(index_of_rows(rows, filter), Script::Japanese, s),
{
    let m = index_of_rows(rows, filter);
    lemma_index_japanese_closed(rows, filter);
    let once = convert_text(m, Script::Japanese, s);
    assert(convert_text(m, Script::Japanese, once) =~= once) by {
        assert forall|i: int| 0 <= i < once.len() implies convert_char(
            m,
            Script::Japanese,
            once[i],
        ) == once[i] by {
            assert(m.contains_key(s[i]) ==> m.contains_key(m[s[i]].japanese));
        }
    }
}

/// A character that the index already leads somewhere keeps its entry through
/// any later rows, unless a later entry taken in has it as its Japanese character:
/// a Traditional or Simplified variant never takes over a claimed character.
pub proof fn lemma_claim_kept(
    rows: Seq<Seq<char>>,
    later: Seq<Seq<char>>,
    filter: Option<Set<char>>,
    c: char,
)
    requires
        index_of_rows(rows, filter).contains_key(c),
        forall|k: int|
            0 <= k < later.len() ==> match #[trigger] parse_line(later[k]) {
                Some(e) => admitted(e, filter) ==> e.japanese != c,
                None => true,
            },
    ensures
        index_of_rows(rows + later, filter).contains_key(c),
        index_of_rows(rows + later, filter)[c] == index_of_rows(rows, filter)[c],
    decreases later.len(),
{
    if later.len() == 0 {
        assert(rows + later == rows);
    } else {
        let shorter = later.drop_last();
        assert forall|k: int| 0 <= k < shorter.len() implies match #[trigger] parse_line(
            shorter[k],
        ) {
            Some(e) => admitted(e, filter) ==> e.japanese != c,
            None => true,
        } by {
            assert(shorter[k] == later[k]);
        }
        lemma_claim_kept(rows, shorter, filter, c);
        assert((rows + later).drop_last() == rows + shorter);
        assert((rows + later).last() == later[later.len() - 1]);
    }
}

} // verus!
