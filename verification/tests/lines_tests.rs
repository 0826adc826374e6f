use randl::lines::{filter_comments, repository_lines, split_lines};

fn owned(xs: &[&str]) -> Vec<String> {
    xs.iter().map(|x| x.to_string()).collect()
}

#[test]
fn splits_on_newlines() {
    assert_eq!(split_lines("a\nb\nc"), owned(&["a", "b", "c"]));
}

#[test]
fn final_newline_adds_no_piece() {
    assert_eq!(split_lines("a\nb\n"), owned(&["a", "b"]));
}

#[test]
fn empty_content_has_no_lines() {
    assert_eq!(split_lines(""), owned(&[]));
}

#[test]
fn inner_empty_lines_are_kept() {
    assert_eq!(split_lines("a\n\nb"), owned(&["a", "", "b"]));
}

#[test]
fn carriage_return_before_newline_is_stripped() {
    assert_eq!(split_lines("a\r\nb\r\n"), owned(&["a", "b"]));
}

#[test]
fn lone_carriage_return_is_kept() {
    assert_eq!(split_lines("a\r"), owned(&["a\r"]));
}

#[test]
fn comment_lines_are_dropped() {
    assert_eq!(
        filter_comments(&owned(&["# one", "a", "#b", "c"])),
        owned(&["a", "c"])
    );
}

#[test]
fn hash_later_in_line_is_no_comment() {
    assert_eq!(filter_comments(&owned(&["a # note"])), owned(&["a # note"]));
}

#[test]
fn repository_lines_split_and_filter() {
    assert_eq!(
        repository_lines("# synced\na.bin\n# other\nNested http://x/r\n"),
        owned(&["a.bin", "Nested http://x/r"])
    );
}

#[test]
fn repository_of_only_comments_is_empty() {
    assert_eq!(repository_lines("# a\n# b\n"), owned(&[]));
}
