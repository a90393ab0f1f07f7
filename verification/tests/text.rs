use nsh::text::chars_of;
use nsh::text::has_separator;
use nsh::text::has_trailing_separator;
use nsh::text::head;
use nsh::text::is_separator;
use nsh::text::replace_range;
use nsh::text::split;
use nsh::text::strip_current_dir;
use nsh::text::tail;
use std::sync::Arc;

fn named(names: &[&str]) -> Vec<Arc<String>> {
    names.iter().map(|name| Arc::new(name.to_string())).collect()
}

#[test]
fn chars_of_lists_the_characters() {
    assert_eq!(chars_of("aé→"), vec!['a', 'é', '→']);
    assert_eq!(chars_of(""), Vec::<char>::new());
}

#[test]
fn is_separator_finds_the_character() {
    let separators = vec![' ', '\t', ':'];
    assert!(is_separator(&separators, ':'));
    assert!(is_separator(&separators, ' '));
    assert!(!is_separator(&separators, 'a'));
    assert!(!is_separator(&Vec::new(), 'a'));
}

#[test]
fn split_cuts_at_each_separator() {
    assert_eq!(split("a:b:c", ":"), named(&["a", "b", "c"]));
    assert_eq!(split("a:b;c", ";:"), named(&["a", "b", "c"]));
    assert_eq!(split("::", ":"), named(&["", "", ""]));
    assert_eq!(split("abc", ""), named(&["abc"]));
    assert_eq!(split("", ""), named(&[""]));
}

#[test]
fn trailing_separator_is_the_last_character() {
    assert!(has_trailing_separator("src/"));
    assert!(has_trailing_separator("/"));
    assert!(!has_trailing_separator("src/main"));
    assert!(!has_trailing_separator(""));
    assert!(!has_trailing_separator("/é"));
}

#[test]
fn separator_anywhere_is_found() {
    assert!(has_separator("src/main"));
    assert!(has_separator("/"));
    assert!(has_separator("é/"));
    assert!(!has_separator("main.rs"));
    assert!(!has_separator(""));
}

#[test]
fn strip_current_dir_removes_one_leading_prefix() {
    assert_eq!(strip_current_dir("./foo.txt"), "foo.txt");
    assert_eq!(strip_current_dir("././foo"), "./foo");
    assert_eq!(strip_current_dir("./"), "");
    assert_eq!(strip_current_dir("./é"), "é");
    assert_eq!(strip_current_dir("foo/./bar"), "foo/./bar");
    assert_eq!(strip_current_dir(".foo"), ".foo");
    assert_eq!(strip_current_dir("."), ".");
    assert_eq!(strip_current_dir(""), "");
}

#[test]
fn head_and_tail_cut_at_a_byte_offset() {
    assert_eq!(head("cat fi", 4), "cat ");
    assert_eq!(tail("cat fi", 4), "fi");
    assert_eq!(head("cat fi", 0), "");
    assert_eq!(tail("cat fi", 0), "cat fi");
    assert_eq!(head("cat fi", 6), "cat fi");
    assert_eq!(tail("cat fi", 6), "");
    assert_eq!(head("aé→b", 3), "aé");
    assert_eq!(tail("aé→b", 3), "→b");
}

#[test]
fn head_and_tail_are_empty_off_a_boundary() {
    assert_eq!(head("aé→b", 2), "");
    assert_eq!(tail("aé→b", 2), "");
    assert_eq!(head("abc", 4), "");
    assert_eq!(tail("abc", 4), "");
    assert_eq!(head("abc", usize::MAX), "");
    assert_eq!(tail("abc", usize::MAX), "");
}

#[test]
fn replace_range_replaces_bytes() {
    assert_eq!(replace_range("cat fi", 4, 2, "file.txt"), "cat file.txt");
    assert_eq!(replace_range("cat fi | wc", 4, 2, "file.txt"), "cat file.txt | wc");
    assert_eq!(replace_range("abc", 1, 0, "-"), "a-bc");
    assert_eq!(replace_range("abc", 0, 3, ""), "");
    assert_eq!(replace_range("ls é ü", 6, 2, "über"), "ls é über");
    assert_eq!(replace_range("", 0, 0, "x"), "x");
}

#[test]
fn replace_range_drops_a_side_off_a_boundary() {
    assert_eq!(replace_range("éa b", 1, 2, "x"), "x b");
    assert_eq!(replace_range("ab é", 1, 3, "x"), "ax");
    assert_eq!(replace_range("abc", 5, 1, "x"), "x");
    assert_eq!(replace_range("abc", 1, usize::MAX, "x"), "ax");
    assert_eq!(replace_range("abc", usize::MAX, usize::MAX, "x"), "x");
}
