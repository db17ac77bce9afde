use resume_builder::text::{
    char_count, chars_of, insert_char, is_whitespace, join_points, remove_char, split_points,
    string_of,
};

fn owned(items: &[&str]) -> Vec<String> {
    items.iter().map(|s| s.to_string()).collect()
}

#[test]
fn whitespace_agrees_with_the_standard_library_on_every_character() {
    let mut code: u32 = 0;
    while code <= 0x10FFFF {
        if let Some(c) = char::from_u32(code) {
            assert_eq!(is_whitespace(c), c.is_whitespace(), "U+{:04X}", code);
        }
        code += 1;
    }
}

#[test]
fn bullet_field_is_split_trimmed_and_filtered() {
    assert_eq!(split_points("a; b ;; c"), owned(&["a", "b", "c"]));
}

#[test]
fn bullet_field_without_separator_is_one_point() {
    assert_eq!(split_points("  only one  "), owned(&["only one"]));
}

#[test]
fn empty_bullet_field_has_no_points() {
    assert_eq!(split_points(""), Vec::<String>::new());
    assert_eq!(split_points(" ;  ; \t;"), Vec::<String>::new());
}

#[test]
fn bullet_points_keep_inner_whitespace_and_order() {
    assert_eq!(
        split_points("built a  thing;shipped it ; \u{3000}measured\u{a0}"),
        owned(&["built a  thing", "shipped it", "measured"])
    );
}

#[test]
fn split_points_agrees_with_split_trim_filter() {
    let samples = [
        "",
        ";",
        "a",
        "a;b",
        " a ; b ",
        ";;a;;b;;",
        "x; y",
        "é ; ü;\u{2003}ß\u{2003}",
        "no separator at all",
        " \n line;\tbreak \r\n",
    ];
    for sample in samples {
        let expected: Vec<String> = sample
            .split(';')
            .map(|s| s.trim().to_string())
            .filter(|s| !s.is_empty())
            .collect();
        assert_eq!(split_points(sample), expected, "{:?}", sample);
    }
}

#[test]
fn points_are_joined_with_semicolon_and_space() {
    assert_eq!(join_points(&owned(&["x", "y", "z"])), "x; y; z");
    assert_eq!(join_points(&owned(&["alone"])), "alone");
    assert_eq!(join_points(&Vec::new()), "");
}

#[test]
fn joined_points_split_back_into_the_same_points() {
    let points = owned(&["led a team", "wrote the docs", "émigré"]);
    assert_eq!(split_points(&join_points(&points)), points);
}

#[test]
fn insert_char_counts_characters_not_bytes() {
    assert_eq!(insert_char("", 0, 'a'), "a");
    assert_eq!(insert_char("ac", 1, 'b'), "abc");
    assert_eq!(insert_char("ab", 2, 'c'), "abc");
    assert_eq!(insert_char("éè", 1, 'x'), "éxè");
    assert_eq!(insert_char("日本", 2, '語'), "日本語");
}

#[test]
fn remove_char_counts_characters_not_bytes() {
    assert_eq!(remove_char("abc", 0), "bc");
    assert_eq!(remove_char("abc", 2), "ab");
    assert_eq!(remove_char("éxè", 1), "éè");
    assert_eq!(remove_char("é", 0), "");
}

#[test]
fn char_count_is_the_number_of_characters() {
    assert_eq!(char_count(""), 0);
    assert_eq!(char_count("abc"), 3);
    assert_eq!(char_count("éè"), 2);
}

#[test]
fn chars_and_strings_convert_both_ways() {
    let chars = chars_of("héllo");
    assert_eq!(chars, vec!['h', 'é', 'l', 'l', 'o']);
    assert_eq!(string_of(&chars, 0, 5), "héllo");
    assert_eq!(string_of(&chars, 1, 3), "él");
    assert_eq!(string_of(&chars, 2, 2), "");
}
