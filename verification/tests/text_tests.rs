use cargo_stripe::order::{chars_lt, insert_sorted, name_lt, sort_names};
use cargo_stripe::text::{
    chars_of, contains_chars, find_char_from, find_last, matches_at, push_all, replace_char,
    same_text, string_of, trim_end_chars,
};

fn cs(s: &str) -> Vec<char> {
    s.chars().collect()
}

#[test]
fn chars_round_trip() {
    assert_eq!(chars_of("héllo"), vec!['h', 'é', 'l', 'l', 'o']);
    assert_eq!(string_of(&cs("héllo, wörld")), "héllo, wörld");
    assert_eq!(string_of(&Vec::new()), "");
    assert_eq!(chars_of(""), Vec::<char>::new());
}

#[test]
fn same_text_compares_content() {
    assert!(same_text("abc", "abc"));
    assert!(!same_text("abc", "abd"));
    assert!(!same_text("abc", "ab"));
    assert!(same_text("", ""));
}

#[test]
fn matches_at_checks_bounds() {
    assert!(matches_at(&cs("pub mod a;"), &cs("mod"), 4));
    assert!(!matches_at(&cs("pub mod a;"), &cs("mod"), 3));
    assert!(!matches_at(&cs("pub"), &cs("pub mod"), 0));
    assert!(!matches_at(&cs("pub"), &cs("b"), 3));
    assert!(matches_at(&cs("pub"), &cs(""), 3));
    assert!(!matches_at(&cs("pub"), &cs(""), 4));
}

#[test]
fn find_last_finds_the_last_occurrence() {
    assert_eq!(find_last(&cs("pub mod a;\npub mod b;"), &cs("pub mod ")), Some(11));
    assert_eq!(find_last(&cs("aaa"), &cs("aa")), Some(1));
    assert_eq!(find_last(&cs("abc"), &cs("d")), None);
    assert_eq!(find_last(&cs("abc"), &cs("")), Some(3));
    assert_eq!(find_last(&cs(""), &cs("")), Some(0));
    assert_eq!(find_last(&cs(""), &cs("a")), None);
    assert!(contains_chars(&cs("abc"), &cs("bc")));
    assert!(!contains_chars(&cs("abc"), &cs("cb")));
}

#[test]
fn find_char_from_finds_the_first_at_or_after() {
    assert_eq!(find_char_from(&cs("a;b;c"), ';', 0), Some(1));
    assert_eq!(find_char_from(&cs("a;b;c"), ';', 1), Some(1));
    assert_eq!(find_char_from(&cs("a;b;c"), ';', 2), Some(3));
    assert_eq!(find_char_from(&cs("a;b;c"), ';', 4), None);
    assert_eq!(find_char_from(&cs("a;b;c"), ';', 5), None);
}

#[test]
fn trim_end_takes_every_copy_off() {
    assert_eq!(trim_end_chars(&cs("a.rs"), &cs(".rs")), cs("a"));
    assert_eq!(trim_end_chars(&cs("a.rs.rs"), &cs(".rs")), cs("a"));
    assert_eq!(trim_end_chars(&cs(".rs"), &cs(".rs")), cs(""));
    assert_eq!(trim_end_chars(&cs("a.rsx"), &cs(".rs")), cs("a.rsx"));
    assert_eq!(trim_end_chars(&cs("rs"), &cs(".rs")), cs("rs"));
    assert_eq!(trim_end_chars(&cs("abc"), &cs("")), cs("abc"));
}

#[test]
fn replace_char_replaces_each() {
    assert_eq!(replace_char(&cs("a_b__c"), '_', ' '), cs("a b  c"));
    assert_eq!(replace_char(&cs("abc"), '_', ' '), cs("abc"));
    assert_eq!(replace_char(&cs(""), '_', ' '), cs(""));
}

#[test]
fn push_all_appends_a_range() {
    let mut out = cs("ab");
    push_all(&mut out, &cs("cdef"), 1, 3);
    assert_eq!(out, cs("abde"));
    push_all(&mut out, &cs("xyz"), 2, 2);
    assert_eq!(out, cs("abde"));
}

#[test]
fn names_are_ordered_like_strings() {
    let samples = ["", "a", "ab", "b", "customer", "customer_balance", "card", "é", "z", "Z"];
    for a in samples {
        for b in samples {
            assert_eq!(name_lt(a, b), a < b);
            assert_eq!(chars_lt(&cs(a), &cs(b)), a < b);
        }
    }
}

#[test]
fn sort_names_sorts_and_keeps_duplicates() {
    let names: Vec<String> =
        ["price", "card", "refund", "card", "account"].iter().map(|s| s.to_string()).collect();
    let mut expected = names.clone();
    expected.sort();
    assert_eq!(sort_names(names), expected);
    assert_eq!(sort_names(Vec::new()), Vec::<String>::new());
}

#[test]
fn insert_sorted_keeps_order() {
    let mut names: Vec<String> = vec!["a".to_string(), "c".to_string()];
    insert_sorted(&mut names, "b".to_string());
    insert_sorted(&mut names, "d".to_string());
    insert_sorted(&mut names, "".to_string());
    insert_sorted(&mut names, "c".to_string());
    assert_eq!(names, vec!["", "a", "b", "c", "c", "d"]);
}
