use nestum::text::{decimal_text, join_names, split_path};

fn names(items: &[&str]) -> Vec<String> {
    items.iter().map(|s| s.to_string()).collect()
}

#[test]
fn split_path_keeps_non_empty_pieces() {
    assert_eq!(split_path("a::b::c"), names(&["a", "b", "c"]));
    assert_eq!(split_path("a"), names(&["a"]));
    assert_eq!(split_path(""), Vec::<String>::new());
    assert_eq!(split_path("a::"), names(&["a"]));
    assert_eq!(split_path("::a"), names(&["a"]));
    assert_eq!(split_path("a::::b"), names(&["a", "b"]));
    assert_eq!(split_path("a:::b"), names(&["a", ":b"]));
    assert_eq!(split_path("a:b"), names(&["a:b"]));
}

#[test]
fn join_names_puts_separator_between() {
    assert_eq!(join_names(&names(&["a", "b", "c"]), "::"), "a::b::c");
    assert_eq!(join_names(&names(&["a"]), "::"), "a");
    assert_eq!(join_names(&names(&[]), "::"), "");
}

#[test]
fn decimal_text_matches_display() {
    assert_eq!(decimal_text(0), "0");
    assert_eq!(decimal_text(7), "7");
    assert_eq!(decimal_text(10), "10");
    assert_eq!(decimal_text(12345), "12345");
    assert_eq!(decimal_text(usize::MAX), format!("{}", usize::MAX));
}
