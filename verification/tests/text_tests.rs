use swww_manager::text::{
    compare_text, contains_text, decimal_text, file_name, is_within, join_path, join_texts,
    last_component, repeat_text, same_set, same_texts, sort_texts,
};

fn list(items: &[&str]) -> Vec<String> {
    items.iter().map(|s| s.to_string()).collect()
}

#[test]
fn texts_are_ordered_by_their_bytes() {
    assert_eq!(compare_text("a", "b"), -1);
    assert_eq!(compare_text("b", "a"), 1);
    assert_eq!(compare_text("abc", "abc"), 0);
    assert_eq!(compare_text("ab", "abc"), -1);
    assert_eq!(compare_text("", ""), 0);
    assert_eq!(compare_text("", "a"), -1);
    assert_eq!(compare_text("Z", "a"), -1);
    assert_eq!(compare_text("é", "z"), 1);
    for (a, b) in [("a-b", "a/b"), ("x", "x"), ("ä", "a"), ("10", "9")] {
        let expected = match a.cmp(b) {
            std::cmp::Ordering::Less => -1,
            std::cmp::Ordering::Equal => 0,
            std::cmp::Ordering::Greater => 1,
        };
        assert_eq!(compare_text(a, b), expected);
    }
}

#[test]
fn decimal_digits() {
    assert_eq!(decimal_text(0), "0");
    assert_eq!(decimal_text(7), "7");
    assert_eq!(decimal_text(10), "10");
    assert_eq!(decimal_text(8192), "8192");
    assert_eq!(decimal_text(u64::MAX), "18446744073709551615");
}

#[test]
fn paths_are_joined_as_the_file_system_does() {
    assert_eq!(join_path("/run/user/1000", "x.sock"), "/run/user/1000/x.sock");
    assert_eq!(join_path("/run/", "x.sock"), "/run/x.sock");
    assert_eq!(join_path("", "x.sock"), "x.sock");
    assert_eq!(join_path("/run", "/abs"), "/abs");
    assert_eq!(join_path("/run", ""), "/run/");
}

#[test]
fn file_name_is_what_follows_the_last_separator() {
    assert_eq!(file_name("/w/a.png"), "a.png");
    assert_eq!(file_name("a.png"), "a.png");
    assert_eq!(file_name("/w/dir/"), "/w/dir/");
    assert_eq!(file_name(""), "");
    assert_eq!(last_component("/w/a.png"), Some("a.png".to_string()));
    assert_eq!(last_component("/w/"), None);
    assert_eq!(last_component(""), None);
}

#[test]
fn lists_are_compared_as_sets_and_as_lists() {
    assert!(same_set(&list(&["a", "b", "a"]), &list(&["b", "a"])));
    assert!(!same_set(&list(&["a", "b"]), &list(&["a"])));
    assert!(same_set(&list(&[]), &list(&[])));
    assert!(is_within(&list(&["a"]), &list(&["b", "a"])));
    assert!(!is_within(&list(&["c"]), &list(&["b", "a"])));
    assert!(contains_text(&list(&["b", "a"]), "a"));
    assert!(!contains_text(&list(&["b", "a"]), "ab"));
    assert!(same_texts(&list(&["a", "b"]), &list(&["a", "b"])));
    assert!(!same_texts(&list(&["a", "b"]), &list(&["b", "a"])));
    assert!(!same_texts(&list(&["a"]), &list(&["a", "a"])));
}

#[test]
fn sorting_keeps_every_text() {
    assert_eq!(sort_texts(&list(&["b", "a", "b", "A"])), list(&["A", "a", "b", "b"]));
    assert_eq!(sort_texts(&list(&[])), list(&[]));
    let mut expected = list(&["HDMI-A-1", "DP-2", "eDP-1", "DP-10"]);
    let got = sort_texts(&expected);
    expected.sort();
    assert_eq!(got, expected);
}

#[test]
fn texts_are_joined_and_repeated() {
    assert_eq!(join_texts(&list(&["a", "b", "c"]), ", "), "a, b, c");
    assert_eq!(join_texts(&list(&["a"]), ", "), "a");
    assert_eq!(join_texts(&list(&[]), ", "), "");
    assert_eq!(repeat_text("-", 3), "---");
    assert_eq!(repeat_text("ab", 2), "abab");
    assert_eq!(repeat_text("-", 0), "");
}
