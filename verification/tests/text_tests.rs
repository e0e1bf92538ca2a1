use intersystems_ls::text::{prefix_before_char, split_lines};

fn lines(text: &str) -> Vec<String> {
    split_lines(text)
}

#[test]
fn split_lines_on_line_feeds() {
    assert_eq!(lines("a\nb"), vec!["a", "b"]);
}

#[test]
fn split_lines_drops_carriage_return_before_line_feed() {
    assert_eq!(lines("a\r\nb\r\n"), vec!["a", "b"]);
}

#[test]
fn split_lines_of_empty_text_is_empty() {
    assert!(lines("").is_empty());
}

#[test]
fn split_lines_final_line_feed_starts_no_line() {
    assert_eq!(lines("x\n"), vec!["x"]);
    assert_eq!(lines("\n"), vec![""]);
}

#[test]
fn split_lines_keeps_empty_lines() {
    assert_eq!(lines("a\n\nb"), vec!["a", "", "b"]);
}

#[test]
fn split_lines_keeps_lone_carriage_return() {
    assert_eq!(lines("a\r"), vec!["a\r"]);
    assert_eq!(lines("a\rb\n"), vec!["a\rb"]);
    assert_eq!(lines("a\r\r\n"), vec!["a\r"]);
}

#[test]
fn split_lines_agrees_with_str_lines() {
    let samples = [
        "Class Demo.Test\n{\n}\n",
        "ROUTINE x\r\n set a = 1\r\n quit\r\n\r\n",
        "\n\n\r\n",
        "no newline at all",
        "é\nü\r\n\u{1F600}",
    ];
    for s in samples {
        let expected: Vec<String> = s.lines().map(String::from).collect();
        assert_eq!(lines(s), expected, "for {:?}", s);
    }
}

#[test]
fn prefix_before_char_stops_at_first() {
    assert_eq!(prefix_before_char("file:///a:b", ':'), "file");
    assert_eq!(prefix_before_char("nocolon", ':'), "nocolon");
    assert_eq!(prefix_before_char(":x", ':'), "");
}
