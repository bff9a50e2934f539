use wallhaven::text::{
    chars_of, decimal, equal, extension, is_whitespace, last_segment, split, starts_with, trim,
};

#[test]
fn whitespace_agrees_with_the_standard_library_on_every_char() {
    for code in 0u32..=0x10FFFF {
        if let Some(c) = char::from_u32(code) {
            assert_eq!(is_whitespace(c), c.is_whitespace(), "U+{:04X}", code);
        }
    }
}

#[test]
fn chars_of_lists_every_character() {
    assert_eq!(chars_of("a€b"), vec!['a', '€', 'b']);
    assert_eq!(chars_of(""), Vec::<char>::new());
}

#[test]
fn trim_removes_white_space_at_both_ends_only() {
    assert_eq!(trim("  Nature "), "Nature");
    assert_eq!(trim("\t\n a b \r\n"), "a b");
    assert_eq!(trim("\u{3000}x\u{a0}"), "x");
    assert_eq!(trim("   "), "");
    assert_eq!(trim(""), "");
    assert_eq!(trim("plain"), "plain");
}

#[test]
fn trim_agrees_with_the_standard_library() {
    let samples = [
        "", " ", "a", " a", "a ", " a b ", "\u{2003}é\u{2028}", "\u{1680}\u{1680}", "x\u{85}",
        "\u{feff}x", "  \u{200b} ",
    ];
    for sample in samples {
        assert_eq!(trim(sample), sample.trim(), "{:?}", sample);
    }
}

#[test]
fn split_keeps_empty_pieces() {
    assert_eq!(split("Nature, Space", ','), vec!["Nature", " Space"]);
    assert_eq!(split("", ','), vec![""]);
    assert_eq!(split(",", ','), vec!["", ""]);
    assert_eq!(split("a,,b,", ','), vec!["a", "", "b", ""]);
    assert_eq!(split("no separator", ','), vec!["no separator"]);
}

#[test]
fn split_agrees_with_the_standard_library() {
    let samples = ["", ",", ",,", "a", "a,b", ",a", "a,", "é,ü,,x", "a, b ,c"];
    for sample in samples {
        let expected: Vec<String> = sample.split(',').map(|piece| piece.to_string()).collect();
        assert_eq!(split(sample, ','), expected, "{:?}", sample);
    }
}

#[test]
fn last_segment_is_what_follows_the_last_separator() {
    assert_eq!(last_segment("https://w.wallhaven.cc/full/ab/wallhaven-ab12cd.jpg", '/'), "wallhaven-ab12cd.jpg");
    assert_eq!(last_segment("photo.jpg", '/'), "photo.jpg");
    assert_eq!(last_segment("a/b/", '/'), "");
    assert_eq!(last_segment("", '/'), "");
    assert_eq!(last_segment("/", '/'), "");
}

#[test]
fn last_segment_is_the_last_piece_of_a_split() {
    let samples = ["", "/", "a", "a/b", "a/b/", "//x", "https://host/dir/file.png"];
    for sample in samples {
        let pieces = split(sample, '/');
        assert_eq!(last_segment(sample, '/'), pieces[pieces.len() - 1], "{:?}", sample);
    }
}

#[test]
fn extension_follows_the_final_dot() {
    assert_eq!(extension("photo.jpg"), Some("jpg"));
    assert_eq!(extension("archive.tar.gz"), Some("gz"));
    assert_eq!(extension("photo.JPG"), Some("JPG"));
    assert_eq!(extension("trailing."), Some(""));
    assert_eq!(extension("photo"), None);
    assert_eq!(extension(".hidden"), None);
    assert_eq!(extension(".hidden.png"), Some("png"));
    assert_eq!(extension(""), None);
    assert_eq!(extension("."), None);
    assert_eq!(extension(".."), None);
    assert_eq!(extension("..."), Some(""));
}

#[test]
fn extension_agrees_with_the_standard_library_on_plain_names() {
    let samples = [
        "photo.jpg", "a.b.c", "noext", ".profile", ".a.b", "x.", "..", "...", "..a", "é.png", "",
        "a..b",
    ];
    for sample in samples {
        let expected = std::path::Path::new(sample).extension().map(|ext| ext.to_str().unwrap());
        assert_eq!(extension(sample), expected, "{:?}", sample);
    }
}

#[test]
fn equal_compares_character_by_character() {
    assert!(equal("jpg", "jpg"));
    assert!(equal("", ""));
    assert!(!equal("jpg", "jpeg"));
    assert!(!equal("jpg", "jpG"));
    assert!(!equal("jpg", "jp"));
}

#[test]
fn starts_with_tests_a_prefix() {
    assert!(starts_with(".hidden", "."));
    assert!(starts_with("$RECYCLE.BIN", "$RECYCLE"));
    assert!(starts_with("abc", ""));
    assert!(starts_with("abc", "abc"));
    assert!(!starts_with("abc", "abcd"));
    assert!(!starts_with("a.b", "."));
    assert!(!starts_with("", "."));
}

#[test]
fn decimal_writes_numbers_as_the_standard_library_does() {
    let samples = [
        0, 1, 9, 10, 11, 99, 100, 101, 1234567, -1, -9, -10, -2147483647, i32::MAX, i32::MIN,
    ];
    for sample in samples {
        assert_eq!(decimal(sample), sample.to_string());
    }
    assert_eq!(decimal(42), "42");
    assert_eq!(decimal(-7), "-7");
    assert_eq!(decimal(i32::MIN), "-2147483648");
}
