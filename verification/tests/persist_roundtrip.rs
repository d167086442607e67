use edit_core::persist::{parse_lines, serialize_lines};

fn doc(rows: &[&str]) -> Vec<Vec<char>> {
    rows.iter().map(|s| s.chars().collect()).collect()
}

fn chars(s: &str) -> Vec<char> {
    s.chars().collect()
}

#[test]
fn serialize_terminates_every_row() {
    let out = serialize_lines(&doc(&["ab", ""]));
    assert_eq!(out, chars("ab\n\n"));
}

#[test]
fn serialize_empty_document_is_empty() {
    let out = serialize_lines(&doc(&[]));
    assert_eq!(out, chars(""));
}

#[test]
fn parse_splits_on_newlines() {
    assert_eq!(parse_lines(&chars("ab\ncd\n")), doc(&["ab", "cd"]));
    assert_eq!(parse_lines(&chars("ab\n\n")), doc(&["ab", ""]));
    assert_eq!(parse_lines(&chars("")), doc(&[]));
}

#[test]
fn parse_keeps_unterminated_fragment() {
    assert_eq!(parse_lines(&chars("ab\ncd")), doc(&["ab", "cd"]));
    assert_eq!(parse_lines(&chars("abc")), doc(&["abc"]));
}

#[test]
fn saving_then_reading_back_gives_the_same_rows() {
    let original = doc(&["fn main() {", "    body", "}", "", "tail"]);
    let read_back = parse_lines(&serialize_lines(&original));
    assert_eq!(read_back, original);
}

#[test]
fn round_trip_of_single_empty_row() {
    let original = doc(&[""]);
    assert_eq!(serialize_lines(&original), chars("\n"));
    assert_eq!(parse_lines(&serialize_lines(&original)), original);
}
