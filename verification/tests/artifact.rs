use std::rc::Rc;

use pony_build::{Artifact, ArtifactKind, Lookup, Object, Sources};

fn string_of(found: Option<Object>) -> Option<String> {
    match found {
        Some(Object::String(string)) => Some(string.as_str().to_string()),
        _ => None,
    }
}

#[test]
fn artifact_new_derives_output_from_name() {
    let artifact = Artifact::new("app".to_string(), ArtifactKind::Binary);
    assert_eq!(artifact.name().as_str(), "app");
    assert_eq!(artifact.output().as_str(), "build/app");
    assert_eq!(artifact.kind(), ArtifactKind::Binary);
    assert!(artifact.sources().is_empty());
}

#[test]
fn artifact_new_keeps_the_kind() {
    assert_eq!(Artifact::new("a".to_string(), ArtifactKind::StaticLib).kind(), ArtifactKind::StaticLib);
    assert_eq!(Artifact::new("a".to_string(), ArtifactKind::DynLib).kind(), ArtifactKind::DynLib);
}

#[test]
fn artifact_output_has_no_suffix_of_its_own() {
    let artifact = Artifact::new("ponygame-runner".to_string(), ArtifactKind::Binary);
    assert_eq!(artifact.output().as_str(), "build/ponygame-runner");
}

#[test]
fn artifact_with_empty_name_outputs_into_the_build_directory() {
    let artifact = Artifact::new(String::new(), ArtifactKind::StaticLib);
    assert_eq!(artifact.name().as_str(), "");
    assert_eq!(artifact.output().as_str(), "build/");
}

#[test]
fn push_sources_appends_in_order() {
    let mut first = Sources::new();
    first.push_c_source("a/x.c".to_string());
    let mut second = Sources::new();
    second.push_c_source("b/y.c".to_string());
    second.push_c_source("b/z.c".to_string());
    let mut artifact = Artifact::new("libfoo".to_string(), ArtifactKind::StaticLib);
    artifact.push_sources(Rc::new(first));
    artifact.push_sources(Rc::new(second));
    assert_eq!(artifact.sources().len(), 2);
    assert_eq!(artifact.sources()[0].len(), 1);
    assert_eq!(artifact.sources()[1].len(), 2);
    assert_eq!(artifact.sources()[1].get(1).unwrap().input_path(), "b/z.c");
    assert_eq!(artifact.name().as_str(), "libfoo");
    assert_eq!(artifact.output().as_str(), "build/libfoo");
    assert_eq!(artifact.kind(), ArtifactKind::StaticLib);
}

#[test]
fn push_sources_accepts_the_same_collection_twice() {
    let mut sources = Sources::new();
    sources.push_c_source("a.c".to_string());
    let shared = Rc::new(sources);
    let mut artifact = Artifact::new("app".to_string(), ArtifactKind::Binary);
    artifact.push_sources(Rc::clone(&shared));
    artifact.push_sources(Rc::clone(&shared));
    assert_eq!(artifact.sources().len(), 2);
    assert!(Rc::ptr_eq(&artifact.sources()[0], &shared));
    assert!(Rc::ptr_eq(&artifact.sources()[1], &shared));
}

#[test]
fn sources_can_be_shared_between_artifacts() {
    let mut sources = Sources::new();
    sources.push_c_source("common/util.c".to_string());
    let shared = Rc::new(sources);
    let mut app = Artifact::new("app".to_string(), ArtifactKind::Binary);
    let mut lib = Artifact::new("lib".to_string(), ArtifactKind::DynLib);
    app.push_sources(Rc::clone(&shared));
    lib.push_sources(Rc::clone(&shared));
    assert!(Rc::ptr_eq(&app.sources()[0], &lib.sources()[0]));
}

#[test]
fn artifact_lookup_output_returns_the_output_path() {
    let artifact = Artifact::new("app".to_string(), ArtifactKind::Binary);
    assert_eq!(string_of(artifact.lookup("output")), Some("build/app".to_string()));
}

#[test]
fn artifact_lookup_name_returns_the_name() {
    let artifact = Artifact::new("app".to_string(), ArtifactKind::Binary);
    assert_eq!(string_of(artifact.lookup("name")), Some("app".to_string()));
}

#[test]
fn artifact_lookup_of_unrecognized_name_is_none() {
    let artifact = Artifact::new("app".to_string(), ArtifactKind::Binary);
    assert!(artifact.lookup("sources").is_none());
    assert!(artifact.lookup("kind").is_none());
    assert!(artifact.lookup("").is_none());
    assert!(artifact.lookup("app").is_none());
    assert!(artifact.lookup("build/app").is_none());
}

#[test]
fn artifact_lookup_matches_the_whole_name_exactly() {
    let artifact = Artifact::new("app".to_string(), ArtifactKind::Binary);
    assert!(artifact.lookup("Output").is_none());
    assert!(artifact.lookup("output ").is_none());
    assert!(artifact.lookup("outpu").is_none());
    assert!(artifact.lookup("names").is_none());
    assert!(artifact.lookup("nam\u{e9}").is_none());
}

#[test]
fn artifact_lookup_shares_the_string_with_the_artifact() {
    let artifact = Artifact::new("app".to_string(), ArtifactKind::Binary);
    match artifact.lookup("output") {
        Some(Object::String(string)) => assert!(Rc::ptr_eq(&string, artifact.output())),
        _ => panic!("output must resolve to a string"),
    }
    match artifact.lookup("name") {
        Some(Object::String(string)) => assert!(Rc::ptr_eq(&string, artifact.name())),
        _ => panic!("name must resolve to a string"),
    }
}

#[test]
fn artifact_lookup_does_not_change_the_artifact() {
    let mut sources = Sources::new();
    sources.push_c_source("a.c".to_string());
    let mut artifact = Artifact::new("app".to_string(), ArtifactKind::DynLib);
    artifact.push_sources(Rc::new(sources));
    let _ = artifact.lookup("output");
    let _ = artifact.lookup("nothing");
    assert_eq!(artifact.name().as_str(), "app");
    assert_eq!(artifact.output().as_str(), "build/app");
    assert_eq!(artifact.kind(), ArtifactKind::DynLib);
    assert_eq!(artifact.sources().len(), 1);
}
