use kanji_convert::{
    build_index, convert_to_japanese_kanji, convert_to_simplified_chinese,
    convert_to_traditional_chinese, kanji_set, standard_index_build, Entry, Script,
};

#[test]
fn test_entry_from_line() {
    let line = "七\t七,柒,漆\t七,柒,漆";
    let entry = Entry::from_line(line).unwrap();

    assert_eq!(entry.japanese, '七');
    assert_eq!(entry.traditional_chinese, vec!['七', '柒', '漆']);
    assert_eq!(entry.simplified_chinese, vec!['七', '柒', '漆']);

    let line_with_na = "鰄\tN/A\tN/A";
    assert!(Entry::from_line(line_with_na).is_some());

    let incorrect_format_line = "just some random text";
    assert!(Entry::from_line(incorrect_format_line).is_none());
}

#[test]
fn to_simplified_test() {
    assert_eq!(convert_to_simplified_chinese("醫生"), "医生");
}

#[test]
fn to_japanese() {
    assert_eq!(convert_to_japanese_kanji("一"), "一");
    assert_eq!(convert_to_japanese_kanji("学"), "学");
    assert_eq!(convert_to_japanese_kanji("學"), "学");
}

#[test]
fn to_simplified_chinese() {
    assert_eq!(convert_to_simplified_chinese("学"), "学");
    assert_eq!(convert_to_simplified_chinese("學"), "学");
}

#[test]
fn to_traditional_chinese() {
    assert_eq!(convert_to_traditional_chinese("学"), "學");
    assert_eq!(convert_to_traditional_chinese("學"), "學");
}

#[test]
fn absent_variants_give_empty_lists() {
    let entry = Entry::from_line("鰄\tN/A\tN/A").unwrap();
    assert_eq!(entry.japanese, '鰄');
    assert!(entry.traditional_chinese.is_empty());
    assert!(entry.simplified_chinese.is_empty());
}

#[test]
fn parts_are_trimmed_and_empty_parts_dropped() {
    let entry = Entry::from_line("國家\t 國 ,, N/A ,圀\u{3000}\t国x").unwrap();
    assert_eq!(entry.japanese, '國');
    assert_eq!(entry.traditional_chinese, vec!['國', '圀']);
    assert_eq!(entry.simplified_chinese, vec!['国']);
}

#[test]
fn wrong_field_count_is_rejected() {
    assert!(Entry::from_line("七\t七").is_none());
    assert!(Entry::from_line("七\t七\t七\t七").is_none());
    assert!(Entry::from_line("").is_none());
}

#[test]
fn unmapped_characters_pass_through() {
    assert_eq!(convert_to_traditional_chinese("a"), "a");
    assert_eq!(convert_to_simplified_chinese("a"), "a");
    assert_eq!(convert_to_japanese_kanji("a"), "a");
    assert_eq!(convert_to_japanese_kanji("猫"), "猫");
    assert_eq!(convert_to_traditional_chinese(""), "");
}

#[test]
fn lengths_are_kept() {
    let input = "日本語, 東京の學生 and 醫生!";
    for out in [
        convert_to_traditional_chinese(input),
        convert_to_simplified_chinese(input),
        convert_to_japanese_kanji(input),
    ] {
        assert_eq!(out.chars().count(), input.chars().count());
    }
    assert_eq!(convert_to_simplified_chinese("日本語"), "日本语");
    assert_eq!(convert_to_traditional_chinese("読書"), "讀書");
    assert_eq!(convert_to_japanese_kanji("讀書"), "読書");
}

#[test]
fn canonical_forms_are_fixed_points() {
    assert_eq!(convert_to_simplified_chinese("学"), "学");
    assert_eq!(convert_to_traditional_chinese("學"), "學");
    assert_eq!(convert_to_japanese_kanji("学医"), "学医");
    let once = convert_to_japanese_kanji("學醫國");
    assert_eq!(once, "学医国");
    assert_eq!(convert_to_japanese_kanji(&once), once);
}

#[test]
fn entry_without_variant_keeps_character() {
    let index = build_index("鰄\tN/A\tN/A\n", None).unwrap();
    assert_eq!(index.convert(Script::Traditional, "鰄"), "鰄");
    assert_eq!(index.convert(Script::Simplified, "鰄"), "鰄");
    assert_eq!(index.convert(Script::Japanese, "鰄"), "鰄");
}

const EXCERPT: &str = "學\t學\t学\n学\t學\t学\n斈\t學\t学\n";

#[test]
fn ambiguity_resolved_by_kanji_list() {
    let kanji = kanji_set("学\n");
    let index = build_index(EXCERPT, Some(&kanji)).unwrap();
    assert_eq!(index.convert(Script::Japanese, "學"), "学");
    assert_eq!(index.convert(Script::Japanese, "学"), "学");
    assert_eq!(index.convert(Script::Japanese, "斈"), "斈");
    assert!(index.lookup('斈').is_none());
    assert_eq!(index.lookup('學').unwrap().japanese, '学');
}

#[test]
fn unfiltered_index_keeps_first_claim() {
    let index = build_index(EXCERPT, None).unwrap();
    assert_eq!(index.convert(Script::Japanese, "學"), "學");
    assert_eq!(index.convert(Script::Japanese, "学"), "学");
    assert_eq!(index.convert(Script::Japanese, "斈"), "斈");
}

#[test]
fn later_variants_do_not_overwrite() {
    let table = "甲\t乙\t丙\n丁\t乙,戊\t丙\n";
    let index = build_index(table, None).unwrap();
    assert_eq!(index.lookup('乙').unwrap().japanese, '甲');
    assert_eq!(index.lookup('丙').unwrap().japanese, '甲');
    assert_eq!(index.lookup('丁').unwrap().japanese, '丁');
    assert!(index.lookup('戊').is_none());
    assert_eq!(index.convert(Script::Japanese, "乙丙丁戊"), "甲甲丁戊");
}

#[test]
fn japanese_key_replaces_earlier_claim() {
    let table = "甲\t乙\t丙\n乙\t乙\t乙\n";
    let index = build_index(table, None).unwrap();
    assert_eq!(index.lookup('乙').unwrap().japanese, '乙');
    assert_eq!(index.convert(Script::Japanese, "乙丙"), "乙甲");
}

#[test]
fn empty_japanese_field_fails_the_build() {
    let table = "甲\t乙\t丙\n\t乙\t丙\n";
    assert_eq!(build_index(table, None).err(), Some(1));
    assert_eq!(build_index("bad row\n\tN/A\tN/A", None).err(), Some(1));
}

#[test]
fn malformed_rows_are_skipped() {
    let index = build_index("header line\n甲\t乙\t丙\n\n", None).unwrap();
    assert_eq!(index.convert(Script::Traditional, "甲丙"), "乙乙");
    assert_eq!(index.convert(Script::Simplified, "甲乙"), "丙丙");
}

#[test]
fn kanji_list_reads_first_character_of_each_line() {
    let kanji = kanji_set("  学校 \n\n医\r\n");
    let index = build_index("学\t學\t学\n校\t校\t校\n医\t醫\t医\n", Some(&kanji)).unwrap();
    assert!(index.lookup('学').is_some());
    assert!(index.lookup('医').is_some());
    assert!(index.lookup('校').is_none());
}

#[test]
fn library_table_builds() {
    let index = standard_index_build().unwrap();
    assert_eq!(index.convert(Script::Simplified, "醫生"), "医生");
    assert_eq!(index.convert(Script::Traditional, "七"), "七");
    assert_eq!(index.convert(Script::Japanese, "壹"), "壹");
}
