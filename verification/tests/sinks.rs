use codeclippy::error::ClippyError;
use codeclippy::localfs::{has_rust_extension, next_depth, should_descend};
use codeclippy::writers::{BufferedWriter, ClippyWriter};

fn through_the_trait(writer: &mut dyn ClippyWriter, line: &str) {
    writer.write_line(line);
}

#[test]
fn buffered_writer_keeps_what_is_written() {
    let mut writer = BufferedWriter::new();
    assert!(writer.get_buffer().is_none());
    assert_eq!(writer.write(b"ab"), 2);
    assert_eq!(writer.write(b""), 0);
    writer.write_line("cd");
    writer.flush();
    assert_eq!(writer.get_buffer(), Some(&b"abcd\n".to_vec()));
    through_the_trait(&mut writer, "é");
    assert_eq!(writer.get_buffer(), Some(&"abcd\né\n".as_bytes().to_vec()));
}

#[test]
fn walk_descends_while_depth_is_left() {
    assert!(should_descend(None));
    assert!(should_descend(Some(1)));
    assert!(!should_descend(Some(0)));
    assert_eq!(next_depth(None), None);
    assert_eq!(next_depth(Some(3)), Some(2));
    assert_eq!(next_depth(Some(1)), Some(0));
}

#[test]
fn rust_sources_end_in_rs() {
    assert!(has_rust_extension("main.rs"));
    assert!(has_rust_extension("src/tree/mod.rs"));
    assert!(has_rust_extension("a.b.rs"));
    assert!(has_rust_extension("..rs"));
    assert!(!has_rust_extension(".rs"));
    assert!(!has_rust_extension("src/.rs"));
    assert!(!has_rust_extension("main.rs.bak"));
    assert!(!has_rust_extension("mainrs"));
    assert!(!has_rust_extension("dir.rs/readme"));
    assert!(!has_rust_extension("main.RS"));
    assert!(!has_rust_extension(""));
    assert!(!has_rust_extension("rs"));
}

#[test]
fn each_error_names_its_subject() {
    let duplicate = ClippyError::DuplicateSymbol { name: "Point".to_string() };
    assert_eq!(duplicate.message(), "more than one public item is named Point");
    let ambiguous = ClippyError::AmbiguousFilter {
        name: "Foo".to_string(),
        candidate_files: vec!["a.rs".to_string(), "b.rs".to_string()],
    };
    assert_eq!(ambiguous.message(), "more than one file declares Foo");
    let unresolved = ClippyError::UnresolvedQueryTarget { path: "a::b".to_string() };
    assert_eq!(unresolved.message(), "no declaration found for a::b");
    let extraction = ClippyError::ExtractionFailure {
        file: "bad.rs".to_string(),
        cause: "expected `;`".to_string(),
    };
    assert_eq!(extraction.message(), "could not extract bad.rs: expected `;`");
}
