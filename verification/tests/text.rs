use ncm_api::text::{last_underscore_segment, parse_i64, split_list, to_hex_lower, trim_space_text};

#[test]
fn hex_rendering() {
    assert_eq!(to_hex_lower(&[]), "");
    assert_eq!(to_hex_lower(&[10, 20, 30]), "0a141e");
    assert_eq!(to_hex_lower(&[0x00, 0xff, 0xab]), "00ffab");
}

#[test]
fn underscore_segments() {
    assert_eq!(last_underscore_segment("R_SO_4_"), "4");
    assert_eq!(last_underscore_segment("R_VI_62_"), "62");
    assert_eq!(last_underscore_segment("A_DR_14__"), "14");
    assert_eq!(last_underscore_segment("plain"), "plain");
    assert_eq!(last_underscore_segment("___"), "");
    assert_eq!(last_underscore_segment(""), "");
}

#[test]
fn integer_parsing() {
    assert_eq!(parse_i64("0"), Some(0));
    assert_eq!(parse_i64("186016"), Some(186016));
    assert_eq!(parse_i64("-1"), Some(-1));
    assert_eq!(parse_i64("007"), Some(7));
    assert_eq!(parse_i64("9223372036854775807"), Some(i64::MAX));
    assert_eq!(parse_i64("-9223372036854775808"), Some(i64::MIN));
    assert_eq!(parse_i64("9223372036854775808"), None);
    assert_eq!(parse_i64("-9223372036854775809"), None);
    assert_eq!(parse_i64("99999999999999999999999"), None);
    assert_eq!(parse_i64(""), None);
    assert_eq!(parse_i64("-"), None);
    assert_eq!(parse_i64("+5"), None);
    assert_eq!(parse_i64("12a"), None);
    assert_eq!(parse_i64("1.5"), None);
    assert_eq!(parse_i64(" 1"), None);
}

#[test]
fn space_trimming() {
    assert_eq!(trim_space_text("  a b  "), "a b");
    assert_eq!(trim_space_text("   "), "");
    assert_eq!(trim_space_text(""), "");
    assert_eq!(trim_space_text("x"), "x");
}

#[test]
fn comma_lists() {
    assert_eq!(split_list("186016"), vec!["186016"]);
    assert_eq!(split_list("1,2,3"), vec!["1", "2", "3"]);
    assert_eq!(split_list("1 , 2"), vec!["1", "2"]);
    assert!(split_list("").is_empty());
    assert_eq!(split_list(" "), vec![""]);
    assert_eq!(split_list("1,"), vec!["1", ""]);
    assert_eq!(split_list(",,"), vec!["", "", ""]);
}
