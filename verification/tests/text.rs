use http_client::text::{has_final_slash, trim_leading_slashes};

#[test]
fn final_slash_is_found() {
    assert!(has_final_slash("http://h/"));
    assert!(has_final_slash("/"));
    assert!(!has_final_slash("http://h"));
    assert!(!has_final_slash(""));
    assert!(!has_final_slash("/a"));
    assert!(!has_final_slash("a/é"));
}

#[test]
fn leading_slashes_are_trimmed() {
    assert_eq!(trim_leading_slashes("/b"), "b");
    assert_eq!(trim_leading_slashes("///b/c/"), "b/c/");
    assert_eq!(trim_leading_slashes("b/"), "b/");
    assert_eq!(trim_leading_slashes("//"), "");
    assert_eq!(trim_leading_slashes(""), "");
    assert_eq!(trim_leading_slashes("/é/"), "é/");
}
