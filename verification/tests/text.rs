use font_codegen::font_data::{read_be, write_be};
use font_codegen::lexer::{char_in_class, CharClass, Source};
use font_codegen::text::{
    concat_all, contains_name, join_all, to_chars, trim_suffix, u32_to_decimal,
};

fn strings(parts: &[&str]) -> Vec<String> {
    parts.iter().map(|p| p.to_string()).collect()
}

#[test]
fn decimal_numerals_have_no_leading_zeros() {
    assert_eq!(u32_to_decimal(0), "0");
    assert_eq!(u32_to_decimal(7), "7");
    assert_eq!(u32_to_decimal(10), "10");
    assert_eq!(u32_to_decimal(1234567890), "1234567890");
    assert_eq!(u32_to_decimal(u32::MAX), "4294967295");
}

#[test]
fn trim_suffix_removes_every_repetition() {
    assert_eq!(trim_suffix("a_offset_offset", "_offset"), "a");
    assert_eq!(trim_suffix("a_offset_offset", "_offset"), "a_offset_offset".trim_end_matches("_offset"));
    assert_eq!(trim_suffix("a_offsets", "_offset"), "a_offsets");
    assert_eq!(trim_suffix("_offset", "_offset"), "");
    assert_eq!(trim_suffix("offset", "_offset"), "offset");
    assert_eq!(trim_suffix("abc", ""), "abc");
    assert_eq!(trim_suffix("", "x"), "");
    assert_eq!(trim_suffix("aaa", "a"), "");
    assert_eq!(trim_suffix("baab", "ab"), "ba");
    assert_eq!(trim_suffix("é_offset", "_offset"), "é");
}

#[test]
fn pieces_are_joined_in_order() {
    assert_eq!(concat_all(&strings(&["a", "", "bc"])), "abc");
    assert_eq!(concat_all(&Vec::new()), "");
    assert_eq!(join_all(&strings(&["a", "b", "c"]), ", "), "a, b, c");
    assert_eq!(join_all(&strings(&["a"]), ", "), "a");
    assert_eq!(join_all(&Vec::new(), ", "), "");
    assert_eq!(join_all(&strings(&["", ""]), "+"), "+");
}

#[test]
fn names_are_found_by_their_characters() {
    let names = strings(&["a", "bc"]);
    assert!(contains_name(&names, &"bc".to_string()));
    assert!(!contains_name(&names, &"b".to_string()));
    assert!(!contains_name(&Vec::new(), &"".to_string()));
    assert_eq!(to_chars("aé"), vec!['a', 'é']);
}

#[test]
fn big_endian_numbers_are_read_and_written() {
    let data = [0x12, 0x34, 0x56, 0x78, 0x9A, 0xBC, 0xDE, 0xF0, 0x11];
    assert_eq!(read_be(&data, 0, 2), Some(0x1234));
    assert_eq!(read_be(&data, 1, 3), Some(0x345678));
    assert_eq!(read_be(&data, 0, 8), Some(0x1234_5678_9ABC_DEF0));
    assert_eq!(read_be(&data, 1, 8), Some(0x3456_789A_BCDE_F011));
    assert_eq!(read_be(&data, 2, 8), None);
    assert_eq!(read_be(&data, 9, 0), Some(0));
    assert_eq!(read_be(&data, 10, 0), None);
    assert_eq!(read_be(&data, usize::MAX, 2), None);
    let mut out = vec![0xFF];
    write_be(&mut out, 0x0102, 2);
    write_be(&mut out, 5, 4);
    write_be(&mut out, 0, 0);
    write_be(&mut out, u64::MAX, 8);
    assert_eq!(out, vec![0xFF, 1, 2, 0, 0, 0, 5, 255, 255, 255, 255, 255, 255, 255, 255]);
}

#[test]
fn characters_fall_into_their_classes() {
    assert!(char_in_class('_', CharClass::Ident));
    assert!(char_in_class('9', CharClass::Ident));
    assert!(!char_in_class('-', CharClass::Ident));
    assert!(!char_in_class('é', CharClass::Ident));
    assert!(char_in_class('\r', CharClass::Space));
    assert!(!char_in_class('a', CharClass::Space));
    assert!(char_in_class('f', CharClass::Hex) && char_in_class('A', CharClass::Hex));
    assert!(!char_in_class('g', CharClass::Hex));
    assert!(!char_in_class('a', CharClass::Digit));
    assert!(char_in_class(' ', CharClass::Line) && !char_in_class('\n', CharClass::Line));
    assert!(char_in_class(':', CharClass::Path) && !char_in_class(':', CharClass::Ident));
}

#[test]
fn words_are_found_behind_blanks_and_comments() {
    let src = Source::new("  // a comment\n\t// another\n  name // trailing\n/// doc\n0x1F 42 ..");
    let (name, span, end) = src.ident(0).unwrap();
    assert_eq!(name, "name");
    assert_eq!((span.start, span.end, end), (29, 33, 33));
    let doc = src.skip(end);
    assert!(src.at(doc, "///"));
    assert!(src.peek(end, "///"));
    assert_eq!(src.accept(end, "///"), doc + 3);
    assert_eq!(src.accept(end, "//!"), end);
    let line_end = src.scan(doc, CharClass::Line);
    assert_eq!(src.slice(doc + 3, line_end), " doc");
    let (value, end) = src.number(line_end).unwrap();
    assert_eq!(value, 0x1F);
    let (value, end) = src.number(end).unwrap();
    assert_eq!(value, 42);
    assert_eq!(src.expect(end, ".."), Ok(end + 3));
    assert_eq!(src.skip(end + 3), src.chars.len());
    let error = src.expect(end, ",").unwrap_err();
    assert_eq!(error.message, "expected `,`");
    assert_eq!(error.span.start, end + 1);
    assert_eq!(src.ident(end).unwrap_err().message, "expected a name");
}

#[test]
fn numbers_have_to_fit_in_32_bits() {
    let number = |text: &str| Source::new(text).number(0).map(|(value, _)| value);
    assert_eq!(number("4294967295"), Ok(u32::MAX));
    assert_eq!(number("0xFFFFFFFF"), Ok(u32::MAX));
    assert_eq!(number("0xffffffff"), Ok(u32::MAX));
    assert_eq!(number("007"), Ok(7));
    assert_eq!(number("0"), Ok(0));
    assert!(number("4294967296").is_err());
    assert!(number("0x100000000").is_err());
    assert!(number("99999999999999999999999999").is_err());
    assert!(number("0x").is_err());
    assert!(number("x1").is_err());
    assert!(number("").is_err());
    assert_eq!(Source::new("12ab").number(0).map(|(v, end)| (v, end)), Ok((12, 2)));
    assert!(Source::new("1name").ident(0).is_err());
}
