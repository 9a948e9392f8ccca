//! Character-level conversion between Japanese Kanji, Traditional Chinese and
//! Simplified Chinese, driven by a table of corresponding characters.
//!
//! Some characters are ambiguous: the table lists Japanese "學", "学" and "斈",
//! all with Traditional "學" and Simplified "学". Only entries whose Japanese
//! character is in the list of canonical Kanji are taken into the index, so
//! "學" converts to Japanese "学".
use vstd::prelude::*;

pub mod entry;
pub mod hashed;
pub mod index;
pub mod kanji;
pub mod laws;
pub mod table;
pub mod text;

pub use entry::{Entry, EntryModel};
pub use index::{build_index, Index, Script};
pub use kanji::kanji_set;
pub use table::{KANJI_LIST, MAPPING_TABLE};

use index::{convert_text, index_of_table, table_complete};
use kanji::kanji_set_of;

verus! {

/// The index of the library's table, under the filter of its Kanji list.
pub open spec fn standard_index() -> Map<char, EntryModel> {
    index_of_table(MAPPING_TABLE@, Some(kanji_set_of(KANJI_LIST@)))
}

/// The index of the library's table, under the filter of its Kanji list; `Err(i)`
/// where row `i` of the table is the first with an empty Japanese field.
pub fn standard_index_build() -> (r: Result<Index, usize>)
    ensures
        r matches Ok(idx) ==> idx.wf() && idx@ == standard_index(),
        r is Ok <==> table_complete(MAPPING_TABLE@),
{
    let kanji = kanji_set(KANJI_LIST);
    build_index(MAPPING_TABLE, Some(&kanji))
}

/// A text converted to `script` through the library's table; unchanged where the
/// table does not build.
fn convert_standard(script: Script, input: &str) -> (r: String)
    ensures
        table_complete(MAPPING_TABLE@) ==> r@ == convert_text(standard_index(), script, input@),
        !table_complete(MAPPING_TABLE@) ==> r@ == input@,
        r@.len() == input@.len(),
{
    match standard_index_build() {
        Ok(idx) => idx.convert(script, input),
        Err(_) => input.to_owned(),
    }
}

/// Converts a text to Traditional Chinese: each character with an entry becomes
/// the entry's first Traditional variant; the others stay as they are.
pub fn convert_to_traditional_chinese(input: &str) -> (r: String)
    ensures
        table_complete(MAPPING_TABLE@) ==> r@ == convert_text(
            standard_index(),
            Script::Traditional,
            input@,
        ),
        !table_complete(MAPPING_TABLE@) ==> r@ == input@,
        r@.len() == input@.len(),
{
    convert_standard(Script::Traditional, input)
}

/// Converts a text to Simplified Chinese: each character with an entry becomes
/// the entry's first Simplified variant; the others stay as they are.
pub fn convert_to_simplified_chinese(input: &str) -> (r: String)
    ensures
        table_complete(MAPPING_TABLE@) ==> r@ == convert_text(
            standard_index(),
            Script::Simplified,
            input@,
        ),
        !table_complete(MAPPING_TABLE@) ==> r@ == input@,
        r@.len() == input@.len(),
{
    convert_standard(Script::Simplified, input)
}

/// Converts a text to Japanese Kanji: each character with an entry becomes the
/// entry's Japanese character; the others stay as they are.
pub fn convert_to_japanese_kanji(input: &str) -> (r: String)
    ensures
        table_complete(MAPPING_TABLE@) ==> r@ == convert_text(
            standard_index(),
            Script::Japanese,
            input@,
        ),
        !table_complete(MAPPING_TABLE@) ==> r@ == input@,
        r@.len() == input@.len(),
{
    convert_standard(Script::Japanese, input)
}

} // verus!
