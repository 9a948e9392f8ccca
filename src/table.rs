//! The table of corresponding characters and the list of canonical Kanji that
//! the conversions of this library read.
use vstd::prelude::*;

verus! {

/// Rows of `Japanese<TAB>Traditional<TAB>Simplified`, the variants of each
/// script comma-separated with the preferred one first, `N/A` where a script
/// has none.
pub const MAPPING_TABLE: &'static str = "一\t一,壹\t一\n七\t七,柒,漆\t七,柒,漆\n人\t人\t人\n中\t中\t中\n日\t日\t日\n本\t本\t本\n東\t東\t东\n京\t京\t京\n生\t生\t生\n國\t國\t国\n国\t國\t国\n語\t語\t语\n漢\t漢\t汉\n字\t字\t字\n學\t學\t学\n学\t學\t学\n斈\t學\t学\n医\t醫\t医\n気\t氣\t气\n会\t會\t会\n社\t社\t社\n電\t電\t电\n車\t車\t车\n読\t讀\t读\n書\t書\t书\n鰄\tN/A\tN/A\n";

/// The canonical Japanese Kanji, one per line.
pub const KANJI_LIST: &'static str = "一\n七\n人\n中\n日\n本\n東\n京\n生\n国\n語\n漢\n字\n学\n医\n気\n会\n社\n電\n車\n読\n書\n";

} // verus!
