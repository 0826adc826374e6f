use randl::download::{filename_from_url, should_report, PROGRESS_STRIDE};

#[test]
fn filename_is_last_segment() {
    assert_eq!(filename_from_url("http://x/dir/a.bin"), "a.bin");
}

#[test]
fn query_string_is_ignored() {
    assert_eq!(filename_from_url("http://x/a.bin?token=1"), "a.bin");
}

#[test]
fn query_with_slashes_is_ignored() {
    assert_eq!(filename_from_url("http://x/a.bin?path=/b/c"), "a.bin");
}

#[test]
fn trailing_slash_takes_last_nonempty_segment() {
    assert_eq!(filename_from_url("http://x/a/"), "a");
    assert_eq!(filename_from_url("http://x/dir//"), "dir");
}

#[test]
fn trailing_slash_with_query_takes_last_nonempty_segment() {
    assert_eq!(filename_from_url("http://x/a/?q=1"), "a");
}

#[test]
fn empty_path_falls_back_to_default() {
    assert_eq!(filename_from_url("http://x/"), "randl-reward");
    assert_eq!(filename_from_url("http://x"), "randl-reward");
}

#[test]
fn scan_stays_within_the_path() {
    assert_eq!(filename_from_url("http://x/files/"), "files");
    assert_eq!(filename_from_url("x/"), "x");
}

#[test]
fn bare_name_is_kept() {
    assert_eq!(filename_from_url("a.bin"), "a.bin");
}

#[test]
fn empty_url_falls_back_to_default() {
    assert_eq!(filename_from_url(""), "randl-reward");
}

#[test]
fn url_of_only_slashes_falls_back_to_default() {
    assert_eq!(filename_from_url("///"), "randl-reward");
    assert_eq!(filename_from_url("/?q=1"), "randl-reward");
}

#[test]
fn progress_reported_at_stride() {
    assert!(should_report(PROGRESS_STRIDE, 0));
    assert!(should_report(524288, 0));
    assert!(!should_report(524287, 0));
    assert!(should_report(1048576, 524288));
    assert!(!should_report(600000, 100000));
    assert!(!should_report(0, 0));
}
