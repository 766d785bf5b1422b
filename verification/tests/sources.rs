use pony_build::{derive_output, CSource, Sources};

#[test]
fn derive_output_replaces_separator_and_appends_suffix() {
    assert_eq!(derive_output("src/main.c"), "src_main.c.o");
}

#[test]
fn derive_output_replaces_every_separator() {
    assert_eq!(derive_output("a/b/c/d.c"), "a_b_c_d.c.o");
    assert_eq!(derive_output("/abs//twice/"), "_abs__twice_.o");
}

#[test]
fn derive_output_without_separator_only_appends_suffix() {
    assert_eq!(derive_output("main.c"), "main.c.o");
}

#[test]
fn derive_output_of_empty_path_is_the_suffix() {
    assert_eq!(derive_output(""), ".o");
}

#[test]
fn derive_output_keeps_other_characters() {
    assert_eq!(derive_output("src\\win dir/h\u{e9}llo_w\u{f6}rld.c"), "src\\win dir_h\u{e9}llo_w\u{f6}rld.c.o");
}

#[test]
fn derive_output_is_deterministic() {
    let path = "lib/util/strings.c";
    let first = derive_output(path);
    let second = derive_output(path);
    assert_eq!(first, second);
    assert_eq!(first, "lib_util_strings.c.o");
}

#[test]
fn derive_output_differs_from_its_input() {
    // The result is computed, not handed back: even a path without a
    // separator comes back longer by the suffix.
    let path = "x";
    assert_ne!(derive_output(path), path);
    assert_eq!(derive_output(path).len(), path.len() + 2);
}

#[test]
fn derive_output_collides_where_an_underscore_stands_for_a_separator() {
    assert_eq!(derive_output("a/b.c"), derive_output("a_b.c"));
}

#[test]
fn derive_output_separates_paths_without_underscores() {
    assert_ne!(derive_output("a/b.c"), derive_output("ab/.c"));
    assert_ne!(derive_output("a/b.c"), derive_output("a/c.c"));
}

#[test]
fn c_source_pairs_input_with_derived_output() {
    let source = CSource::new("src/main.c".to_string());
    assert_eq!(source.input_path(), "src/main.c");
    assert_eq!(source.output_path(), "src_main.c.o");
}

#[test]
fn sources_new_is_empty() {
    let sources = Sources::new();
    assert_eq!(sources.len(), 0);
    assert!(sources.files().is_empty());
    assert!(sources.get(0).is_none());
}

#[test]
fn push_c_source_appends_one_file() {
    let mut sources = Sources::new();
    sources.push_c_source("src/main.c".to_string());
    assert_eq!(sources.len(), 1);
    let source = sources.get(0).unwrap();
    assert_eq!(source.input_path(), "src/main.c");
    assert_eq!(source.output_path(), "src_main.c.o");
}

#[test]
fn push_c_source_preserves_insertion_order() {
    let mut sources = Sources::new();
    sources.push_c_source("z/last.c".to_string());
    sources.push_c_source("a/first.c".to_string());
    sources.push_c_source("m/middle.c".to_string());
    let inputs: Vec<&str> = sources.files().iter().map(|source| source.input_path()).collect();
    assert_eq!(inputs, vec!["z/last.c", "a/first.c", "m/middle.c"]);
    let outputs: Vec<&str> = sources.files().iter().map(|source| source.output_path()).collect();
    assert_eq!(outputs, vec!["z_last.c.o", "a_first.c.o", "m_middle.c.o"]);
}

#[test]
fn push_c_source_does_not_deduplicate() {
    let mut sources = Sources::new();
    sources.push_c_source("a.c".to_string());
    sources.push_c_source("a.c".to_string());
    assert_eq!(sources.len(), 2);
    assert_eq!(sources.get(0).unwrap().input_path(), "a.c");
    assert_eq!(sources.get(1).unwrap().input_path(), "a.c");
}

#[test]
fn push_c_source_does_not_check_that_the_file_exists() {
    let mut sources = Sources::new();
    sources.push_c_source("no/such/dir/no_such_file.c".to_string());
    assert_eq!(sources.len(), 1);
    assert_eq!(sources.get(0).unwrap().output_path(), "no_such_dir_no_such_file.c.o");
}

#[test]
fn sources_get_past_the_end_is_none() {
    let mut sources = Sources::new();
    sources.push_c_source("a.c".to_string());
    assert!(sources.get(0).is_some());
    assert!(sources.get(1).is_none());
    assert!(sources.get(usize::MAX).is_none());
}
