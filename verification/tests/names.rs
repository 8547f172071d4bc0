use codeclippy::helpers::generate_id;
use codeclippy::names::{
    clone_names, contains_name, insert_name, join_path, join_path_from, merge_into, split_path,
    starts_with, str_eq,
};
use codeclippy::text::{clip_line, concat_strings, join_strings};

fn names_of(list: &[&str]) -> Vec<String> {
    list.iter().map(|s| s.to_string()).collect()
}

#[test]
fn split_path_cuts_at_each_separator() {
    assert_eq!(split_path("module::Type::method"), names_of(&["module", "Type", "method"]));
    assert_eq!(split_path("Type"), names_of(&["Type"]));
    assert_eq!(split_path(""), names_of(&[""]));
}

#[test]
fn split_path_takes_separators_from_the_left() {
    assert_eq!(split_path("a:::b"), names_of(&["a", ":b"]));
    assert_eq!(split_path("::a"), names_of(&["", "a"]));
    assert_eq!(split_path("a::"), names_of(&["a", ""]));
    assert_eq!(split_path("a:b"), names_of(&["a:b"]));
    assert_eq!(split_path("::::"), names_of(&["", "", ""]));
}

#[test]
fn split_path_counts_characters_not_bytes() {
    assert_eq!(split_path("größe::Äpfel"), names_of(&["größe", "Äpfel"]));
}

#[test]
fn join_path_puts_separators_between_segments() {
    assert_eq!(join_path(&names_of(&["a", "b", "c"])), "a::b::c");
    assert_eq!(join_path(&names_of(&["a"])), "a");
    assert_eq!(join_path(&names_of(&[])), "");
    assert_eq!(join_path_from(&names_of(&["file", "Type", "method"]), 1), "Type::method");
    assert_eq!(join_path_from(&names_of(&["file"]), 1), "");
}

#[test]
fn join_undoes_split() {
    for path in ["a::b", "x", "", "a:::b", "::", "file.rs::Type::method"] {
        assert_eq!(join_path(&split_path(path)), path);
    }
}

#[test]
fn strings_are_compared_by_their_characters() {
    assert!(str_eq("abc", "abc"));
    assert!(!str_eq("abc", "abd"));
    assert!(!str_eq("abc", "ab"));
    assert!(str_eq("", ""));
    assert!(starts_with("Type::method", "Type"));
    assert!(starts_with("Type", "Type"));
    assert!(starts_with("Type", ""));
    assert!(!starts_with("Typ", "Type"));
    assert!(!starts_with("type", "Type"));
}

#[test]
fn name_lists_hold_each_name_once() {
    let mut names = names_of(&["a", "b"]);
    assert!(contains_name(&names, "a"));
    assert!(!contains_name(&names, "c"));
    assert!(!insert_name(&mut names, "a"));
    assert_eq!(names, names_of(&["a", "b"]));
    assert!(insert_name(&mut names, "c"));
    assert_eq!(names, names_of(&["a", "b", "c"]));
    merge_into(&mut names, &names_of(&["c", "d", "a", "d", "e"]));
    assert_eq!(names, names_of(&["a", "b", "c", "d", "e"]));
    assert_eq!(clone_names(&names), names);
}

#[test]
fn identifier_is_the_name() {
    assert_eq!(generate_id("Point"), "Point");
    assert_eq!(generate_id(""), "");
    assert_ne!(generate_id("a"), generate_id("b"));
}

#[test]
fn pieces_are_joined_and_clipped() {
    assert_eq!(join_strings(&names_of(&["a", "b", "c"]), ", "), "a, b, c");
    assert_eq!(join_strings(&names_of(&["a"]), ", "), "a");
    assert_eq!(join_strings(&names_of(&[]), ", "), "");
    assert_eq!(concat_strings(&names_of(&["ab", "", "cd"])), "abcd");
    assert_eq!(clip_line("hello world", 6, 11), "world");
    assert_eq!(clip_line("hello", 2, 100), "llo");
    assert_eq!(clip_line("hello", 7, 9), "");
    assert_eq!(clip_line("hello", 3, 1), "");
    assert_eq!(clip_line("äöü", 1, 2), "ö");
}
