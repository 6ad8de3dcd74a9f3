use rbeditor::text::trim;

#[test]
fn trim_leaves_a_clean_name_alone() {
    assert_eq!(trim("new.txt"), "new.txt");
}

#[test]
fn trim_cuts_both_ends() {
    assert_eq!(trim("  new.txt\t\n"), "new.txt");
    assert_eq!(trim("\r\n x"), "x");
    assert_eq!(trim("x \r\n"), "x");
}

#[test]
fn trim_keeps_white_space_inside() {
    assert_eq!(trim(" a  b\tc "), "a  b\tc");
}

#[test]
fn trim_of_white_space_is_empty() {
    assert_eq!(trim(""), "");
    assert_eq!(trim(" "), "");
    assert_eq!(trim(" \t\r\n "), "");
}

#[test]
fn trim_knows_white_space_beyond_ascii() {
    assert_eq!(trim("\u{00A0}\u{3000}name\u{2003}\u{2028}"), "name");
    assert_eq!(trim("\u{0085}é\u{1680}"), "é");
}

#[test]
fn trim_keeps_what_is_not_white_space() {
    assert_eq!(trim("\u{200B}x\u{200B}"), "\u{200B}x\u{200B}");
    assert_eq!(trim("_x_"), "_x_");
    assert_eq!(trim(" 日本語 "), "日本語");
}

#[test]
fn trim_agrees_with_the_standard_library() {
    let samples = [
        "", " ", "a", " a", "a ", "  a b  ", "\n\n", "\tx\ty\t", "\u{2000}\u{2001}z",
        "ünï cödé ", " \u{FEFF}bom", "\u{000B}\u{000C}vertical",
    ];
    for sample in samples {
        assert_eq!(trim(sample), sample.trim());
    }
}
