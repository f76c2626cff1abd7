//! Tests of the identifier normalizer and the validated inputs.

use csproj::errors::Error;
use csproj::ident::normalize;
use csproj::options::{OptionSet, Runtime};
use csproj::target::{join_path, BuildTarget};

#[test]
fn normalize_is_deterministic() {
    let a = normalize("My-Component").unwrap();
    let b = normalize("My-Component").unwrap();
    assert_eq!(a.token, b.token);
    assert_eq!(a.camel, b.camel);
}

#[test]
fn normalize_expected_forms() {
    let id = normalize("my-world").unwrap();
    assert_eq!(id.token, "my_world");
    assert_eq!(id.camel, "MyWorld");

    let id = normalize("My-Component").unwrap();
    assert_eq!(id.token, "my_component");
    assert_eq!(id.camel, "MyComponent");

    let id = normalize("plain").unwrap();
    assert_eq!(id.token, "plain");
    assert_eq!(id.camel, "Plain");
}

#[test]
fn normalize_rejects_empty_input() {
    match normalize("") {
        Err(Error::InvalidIdentifier { name }) => assert_eq!(name, ""),
        other => panic!("expected InvalidIdentifier, got {:?}", other),
    }
}

#[test]
fn normalize_rejects_name_without_words() {
    match normalize("---") {
        Err(Error::InvalidIdentifier { name }) => assert_eq!(name, "---"),
        other => panic!("expected InvalidIdentifier, got {:?}", other),
    }
}

#[test]
fn build_target_rejects_bad_names() {
    match BuildTarget::new("out", "", "my-world") {
        Err(Error::InvalidIdentifier { name }) => assert_eq!(name, ""),
        other => panic!("expected InvalidIdentifier, got {:?}", other),
    }
    match BuildTarget::new("out", "my-component", "_-_") {
        Err(Error::InvalidIdentifier { name }) => assert_eq!(name, "_-_"),
        other => panic!("expected InvalidIdentifier, got {:?}", other),
    }
    let t = BuildTarget::new("out", "my-component", "my-world").unwrap();
    assert_eq!(t.name.camel, "MyComponent");
    assert_eq!(t.world.token, "my_world");
    assert_eq!(t.world.camel, "MyWorld");
}

#[test]
fn join_path_separator_rules() {
    assert_eq!(join_path("out", "a.wasm"), "out/a.wasm");
    assert_eq!(join_path("out/", "a.wasm"), "out/a.wasm");
    assert_eq!(join_path("", "a.wasm"), "a.wasm");
}

#[test]
fn option_set_validates_combinations() {
    let o = OptionSet::new(Runtime::NativeAot, true, true).unwrap();
    assert_eq!(o.runtime(), Runtime::NativeAot);
    assert!(o.aot());
    assert!(o.clean_targets());

    assert!(OptionSet::new(Runtime::ManagedRuntime, false, true).is_ok());
    match OptionSet::new(Runtime::ManagedRuntime, true, false) {
        Err(Error::UnsupportedCombination { flag }) => assert_eq!(flag, "aot"),
        other => panic!("expected UnsupportedCombination, got {:?}", other),
    }
}

#[test]
fn normalize_keeps_non_ascii_letters() {
    let id = normalize("café-au-lait").unwrap();
    assert_eq!(id.token, "café_au_lait");
    assert_eq!(id.camel, "CaféAuLait");
    let again = normalize("café-au-lait").unwrap();
    assert_eq!(id.token, again.token);
    assert_eq!(id.camel, again.camel);
}
