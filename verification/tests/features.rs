use cargoman::manifest::{Dependencies, Dependency, DependencyDetails, Manifest};
use indexmap::IndexMap;

fn bare_manifest() -> Manifest {
    Manifest {
        package: toml::Value::String(String::from("package")),
        profile: None,
        lib: None,
        bin: None,
        example: None,
        test: None,
        bench: None,
        dependencies: None,
        dev_dependencies: None,
        build_dependencies: None,
        features: None,
        target: None,
        badges: None,
        remainder: IndexMap::new(),
    }
}

fn plain(version: &str) -> Dependency {
    Dependency::Version(version.to_string())
}

fn detailed(optional: Option<bool>) -> Dependency {
    Dependency::Details(DependencyDetails {
        version: Some(String::from("1")),
        features: None,
        optional,
        default_features: None,
        package: None,
        remainder: IndexMap::new(),
    })
}

fn dependencies(entries: Vec<(&str, Dependency)>) -> Dependencies {
    let mut map = IndexMap::new();
    for (name, dependency) in entries {
        map.insert(name.to_string(), dependency);
    }
    map
}

fn features(entries: &[(&str, &[&str])]) -> IndexMap<String, Vec<String>> {
    let mut map = IndexMap::new();
    for (name, switched) in entries {
        map.insert(name.to_string(), switched.iter().map(|s| s.to_string()).collect());
    }
    map
}

fn feature_table(m: &Manifest) -> Vec<(String, Vec<String>)> {
    m.features.as_ref().unwrap().iter().map(|(name, list)| (name.clone(), list.clone())).collect()
}

fn table(entries: &[(&str, &[&str])]) -> Vec<(String, Vec<String>)> {
    entries
        .iter()
        .map(|(name, switched)| (name.to_string(), switched.iter().map(|s| s.to_string()).collect()))
        .collect()
}

fn names(list: &Option<Dependencies>) -> Vec<String> {
    list.as_ref().unwrap().keys().cloned().collect()
}

#[test]
fn a_manifest_without_features_fails() {
    let mut m = bare_manifest();
    m.dependencies = Some(dependencies(vec![("a", detailed(Some(true)))]));
    assert_eq!(m.remove_feature("x"), Err(String::from("No features present in Cargo.toml.")));
    assert!(m.features.is_none());
    assert_eq!(names(&m.dependencies), vec!["a"]);
}

#[test]
fn a_feature_that_is_not_there_fails() {
    let mut m = bare_manifest();
    m.features = Some(features(&[("default", &["std", "x"]), ("std", &[])]));
    m.dependencies = Some(dependencies(vec![("x", detailed(Some(true)))]));
    assert_eq!(
        m.remove_feature("x"),
        Err(String::from("Feature not present in Cargo.toml: x"))
    );
    assert_eq!(feature_table(&m), table(&[("default", &["std", "x"]), ("std", &[])]));
    assert_eq!(names(&m.dependencies), vec!["x"]);
}

#[test]
fn an_empty_table_of_features_has_no_feature() {
    let mut m = bare_manifest();
    m.features = Some(features(&[]));
    assert_eq!(
        m.remove_feature(""),
        Err(String::from("Feature not present in Cargo.toml: "))
    );
    assert_eq!(feature_table(&m), table(&[]));
}

#[test]
fn the_feature_goes_and_the_others_keep_their_order() {
    let mut m = bare_manifest();
    m.features = Some(features(&[("a", &["x"]), ("b", &["y"]), ("c", &["z"]), ("d", &[])]));
    assert_eq!(m.remove_feature("b"), Ok(()));
    assert_eq!(feature_table(&m), table(&[("a", &["x"]), ("c", &["z"]), ("d", &[])]));
    assert!(m.dependencies.is_none());
}

#[test]
fn no_other_feature_switches_the_removed_one_on() {
    let mut m = bare_manifest();
    m.features = Some(features(&[
        ("default", &["std", "extra", "std"]),
        ("std", &["alloc"]),
        ("full", &["extra", "std", "alloc"]),
        ("alloc", &[]),
    ]));
    assert_eq!(m.remove_feature("std"), Ok(()));
    assert_eq!(
        feature_table(&m),
        table(&[("default", &["extra"]), ("full", &["extra", "alloc"]), ("alloc", &[])])
    );
}

#[test]
fn an_optional_dependency_that_only_the_feature_switched_on_goes() {
    let mut m = bare_manifest();
    m.features = Some(features(&[("default", &[]), ("json", &["serde_json", "serde"])]));
    m.dependencies = Some(dependencies(vec![
        ("log", plain("0.4")),
        ("serde_json", detailed(Some(true))),
        ("serde", detailed(Some(true))),
        ("libc", plain("0.2")),
    ]));
    assert_eq!(m.remove_feature("json"), Ok(()));
    assert_eq!(feature_table(&m), table(&[("default", &[])]));
    assert_eq!(names(&m.dependencies), vec!["log", "libc"]);
}

#[test]
fn an_optional_dependency_that_another_feature_needs_stays() {
    let mut m = bare_manifest();
    m.features = Some(features(&[
        ("json", &["serde_json", "serde"]),
        ("derive", &["serde"]),
    ]));
    m.dependencies = Some(dependencies(vec![
        ("serde", detailed(Some(true))),
        ("serde_json", detailed(Some(true))),
    ]));
    assert_eq!(m.remove_feature("json"), Ok(()));
    assert_eq!(feature_table(&m), table(&[("derive", &["serde"])]));
    assert_eq!(names(&m.dependencies), vec!["serde"]);
}

#[test]
fn a_dependency_that_is_not_optional_stays() {
    let mut m = bare_manifest();
    m.features = Some(features(&[("f", &["a", "b", "c", "d"])]));
    m.dependencies = Some(dependencies(vec![
        ("a", plain("1")),
        ("b", detailed(None)),
        ("c", detailed(Some(false))),
        ("d", detailed(Some(true))),
    ]));
    assert_eq!(m.remove_feature("f"), Ok(()));
    assert_eq!(names(&m.dependencies), vec!["a", "b", "c"]);
}

#[test]
fn an_optional_dependency_that_the_feature_did_not_switch_on_stays() {
    let mut m = bare_manifest();
    m.features = Some(features(&[("f", &["a"]), ("g", &[])]));
    m.dependencies = Some(dependencies(vec![
        ("a", detailed(Some(true))),
        ("b", detailed(Some(true))),
    ]));
    assert_eq!(m.remove_feature("f"), Ok(()));
    assert_eq!(names(&m.dependencies), vec!["b"]);
}

#[test]
fn a_dependency_needed_only_through_the_removed_feature_goes() {
    let mut m = bare_manifest();
    m.features = Some(features(&[("f", &["a"]), ("g", &["f", "a"]), ("h", &["f"])]));
    m.dependencies = Some(dependencies(vec![("a", detailed(Some(true)))]));
    assert_eq!(m.remove_feature("f"), Ok(()));
    assert_eq!(feature_table(&m), table(&[("g", &["a"]), ("h", &[])]));
    assert_eq!(names(&m.dependencies), vec!["a"]);
    assert_eq!(m.remove_feature("g"), Ok(()));
    assert_eq!(feature_table(&m), table(&[("h", &[])]));
    assert_eq!(names(&m.dependencies), Vec::<String>::new());
}

#[test]
fn a_feature_named_like_a_dependency_that_switches_itself_on() {
    let mut m = bare_manifest();
    m.features = Some(features(&[("a", &["a", "a"])]));
    m.dependencies = Some(dependencies(vec![("a", detailed(Some(true))), ("b", plain("1"))]));
    assert_eq!(m.remove_feature("a"), Ok(()));
    assert_eq!(feature_table(&m), table(&[]));
    assert_eq!(names(&m.dependencies), vec!["b"]);
}

#[test]
fn development_and_build_dependencies_stay() {
    let mut m = bare_manifest();
    m.features = Some(features(&[("f", &["a"])]));
    m.dependencies = Some(dependencies(vec![("a", detailed(Some(true)))]));
    m.dev_dependencies = Some(dependencies(vec![("a", detailed(Some(true)))]));
    m.build_dependencies = Some(dependencies(vec![("a", detailed(Some(true)))]));
    assert_eq!(m.remove_feature("f"), Ok(()));
    assert_eq!(names(&m.dependencies), Vec::<String>::new());
    assert_eq!(names(&m.dev_dependencies), vec!["a"]);
    assert_eq!(names(&m.build_dependencies), vec!["a"]);
}

#[test]
fn a_manifest_without_dependencies_loses_only_the_feature() {
    let mut m = bare_manifest();
    m.features = Some(features(&[("f", &["a"]), ("g", &["f"])]));
    assert_eq!(m.remove_feature("f"), Ok(()));
    assert_eq!(feature_table(&m), table(&[("g", &[])]));
    assert!(m.dependencies.is_none());
}
