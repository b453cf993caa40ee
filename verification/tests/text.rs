use flutter_rust_bridge::text::{
    lines, unique_lines, write_decimal, write_quoted, write_signed_decimal,
};

#[test]
fn lines_end_at_line_feeds() {
    assert_eq!(lines("a\nb\n\nc"), vec!["a", "b", "", "c"]);
    assert_eq!(lines("a\n"), vec!["a"]);
    assert_eq!(lines("a\n\n"), vec!["a", ""]);
    assert_eq!(lines("\n"), vec![""]);
    assert!(lines("").is_empty());
}

#[test]
fn carriage_return_belongs_to_the_line_ending() {
    assert_eq!(lines("a\r\nb\rc\r"), vec!["a", "b\rc\r"]);
    assert_eq!(lines("\r\n\r\r\n"), vec!["", "\r"]);
}

#[test]
fn lines_are_those_of_the_standard_library() {
    for text in ["", "x", "\u{e9}\n\u{1f600}\r\n", "a\r\r\nb", "\n\r\n\r", "one\ntwo\r\nthree"] {
        let expected: Vec<String> = text.lines().map(|line| line.to_string()).collect();
        assert_eq!(lines(text), expected);
    }
}

#[test]
fn repeated_lines_are_taken_out() {
    let imports = "import 'a';\nimport 'b';\nimport 'a';\nimport 'c';\nimport 'b';";
    assert_eq!(unique_lines(imports), "import 'a';\nimport 'b';\nimport 'c';");
    assert_eq!(unique_lines(""), "");
    assert_eq!(unique_lines("x\r\nx\ny"), "x\ny");
}

#[test]
fn unique_lines_stay_as_they_are() {
    let once = unique_lines("b\na\nb\n\nc");
    assert_eq!(once, "b\na\n\nc");
    assert_eq!(unique_lines(&once), once);
    assert_eq!(lines(&once), vec!["b", "a", "", "c"]);
}

#[test]
fn an_empty_last_line_is_lost() {
    assert_eq!(unique_lines("a\n\n"), "a\n");
    assert_eq!(unique_lines("a\n"), "a");
}

#[test]
fn numbers_are_decimal() {
    for value in [0u128, 7, 10, 99, 100, 424242, u128::MAX] {
        assert_eq!(write_decimal(value), value.to_string());
    }
    for value in [0i64, -1, 10, -10, 451, i64::MIN, i64::MAX] {
        assert_eq!(write_signed_decimal(value), value.to_string());
    }
}

#[test]
fn plain_text_is_quoted() {
    assert_eq!(write_quoted("static str"), format!("{:?}", "static str"));
    assert_eq!(write_quoted(""), "\"\"");
}
