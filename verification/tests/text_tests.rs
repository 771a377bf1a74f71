use sentinel_guard::text::{double_quotes, same_text, trim};

#[test]
fn same_text_compares_characters() {
    assert!(same_text("", ""));
    assert!(same_text("null", "null"));
    assert!(!same_text("null", "nul"));
    assert!(!same_text("null", "Null"));
    assert!(!same_text("", " "));
}

#[test]
fn double_quotes_leaves_plain_text() {
    assert_eq!(double_quotes(""), "");
    assert_eq!(double_quotes("USB\\VID_1234&PID_5678\\0001"), "USB\\VID_1234&PID_5678\\0001");
}

#[test]
fn double_quotes_doubles_each_quote() {
    assert_eq!(double_quotes("'"), "''");
    assert_eq!(double_quotes("a'b"), "a''b");
    assert_eq!(double_quotes("''"), "''''");
    assert_eq!(double_quotes("x'; Remove-Item C:\\ -Recurse; '"), "x''; Remove-Item C:\\ -Recurse; ''");
}

#[test]
fn double_quotes_agrees_with_replace() {
    let samples = ["", "'", "it's", "'a'b'c'", "\"double\"", "日本'語", "no quotes at all"];
    for sample in samples {
        assert_eq!(double_quotes(sample), sample.replace("'", "''"));
    }
}

#[test]
fn trim_removes_white_space_at_both_ends() {
    assert_eq!(trim("  hello \r\n"), "hello");
    assert_eq!(trim("\t[1, 2]\n"), "[1, 2]");
    assert_eq!(trim("null\n"), "null");
}

#[test]
fn trim_keeps_inner_white_space() {
    assert_eq!(trim(" a  b\tc "), "a  b\tc");
}

#[test]
fn trim_of_white_space_is_empty() {
    assert_eq!(trim(""), "");
    assert_eq!(trim(" \t\r\n "), "");
}

#[test]
fn trim_leaves_trimmed_text() {
    assert_eq!(trim("x"), "x");
    assert_eq!(trim("{\"a\":\" b \"}"), "{\"a\":\" b \"}");
}

#[test]
fn trim_agrees_with_the_standard_library() {
    let samples = [
        "",
        " ",
        "a",
        " a",
        "a ",
        "\u{a0}wide\u{3000}",
        "\u{2028}line\u{2029}",
        "  tab\tinside  ",
        "\u{feff}bom is no white space ",
        "é ü",
    ];
    for sample in samples {
        assert_eq!(trim(sample), sample.trim());
    }
}
