use mdbook_test::manifest::{update_cargo_toml, Table, Value};

fn get_build<'a>(table: &'a Table) -> Option<&'a Value> {
    table
        .get("package")
        .and_then(|v| v.as_table())
        .and_then(|t| t.get("build"))
}

#[test]
fn build_rs_is_added_to_cargo_toml() {
    let original = Table::new();

    assert!(get_build(&original).is_none());

    let got = update_cargo_toml(original, &[]).unwrap();

    let got_as_table = got.as_table().unwrap();
    assert!(get_build(got_as_table).is_some());
}

#[test]
fn dependencies_are_added_to_cargo_toml() {
    let original = Table::new();
    let deps = vec![
        String::from("foo"),
        String::from("bar"),
        String::from("baz"),
    ];

    let got = update_cargo_toml(original, &deps).unwrap();

    let got_deps = got
        .as_table()
        .and_then(|t| t.get("dependencies"))
        .and_then(Value::as_table)
        .unwrap();

    assert_eq!(got_deps.len(), deps.len());
    for dep in &deps {
        assert!(got_deps.contains_key(dep));
    }
}

fn sample_manifest() -> Table {
    let mut package = Table::new();
    package.insert(String::from("name"), Value::Str(String::from("test_crate")));
    package.insert(String::from("version"), Value::Str(String::from("0.1.0")));
    let mut manifest = Table::new();
    manifest.insert(String::from("package"), Value::Table(package));
    manifest.insert(String::from("badges"), Value::Bool(true));
    manifest
}

#[test]
fn transforming_twice_changes_nothing_more() {
    let deps = vec![String::from("bitflags")];

    let once = update_cargo_toml(sample_manifest(), &deps).unwrap();
    let once_table = match update_cargo_toml(sample_manifest(), &deps).unwrap() {
        Value::Table(t) => t,
        other => panic!("expected a table, got {:?}", other),
    };
    let twice = update_cargo_toml(once_table, &deps).unwrap();

    assert_eq!(once, twice);
}

#[test]
fn requested_dependencies_get_the_wildcard_version() {
    let deps = vec![String::from("foo"), String::from("bar")];
    let got = update_cargo_toml(sample_manifest(), &deps).unwrap();
    let deps_table = got
        .as_table()
        .and_then(|t| t.get("dependencies"))
        .and_then(Value::as_table)
        .unwrap();

    assert_eq!(
        deps_table.get("foo"),
        Some(&Value::Str(String::from("*")))
    );
    assert_eq!(
        deps_table.get("bar"),
        Some(&Value::Str(String::from("*")))
    );
}

#[test]
fn unrelated_keys_survive_the_transformation() {
    let got = update_cargo_toml(sample_manifest(), &[]).unwrap();
    let table = got.as_table().unwrap();

    assert_eq!(table.get("badges"), Some(&Value::Bool(true)));

    let package = table
        .get("package")
        .and_then(Value::as_table)
        .unwrap();
    assert_eq!(
        package.get("name"),
        Some(&Value::Str(String::from("test_crate")))
    );
    assert_eq!(
        package.get("version"),
        Some(&Value::Str(String::from("0.1.0")))
    );
    assert_eq!(
        package.get("build"),
        Some(&Value::Str(String::from("build.rs")))
    );
}

#[test]
fn harness_support_lands_in_both_dependency_tables() {
    let got = update_cargo_toml(Table::new(), &[]).unwrap();
    let table = got.as_table().unwrap();

    for key in ["dev-dependencies", "build-dependencies"] {
        let sub = table.get(key).and_then(Value::as_table).unwrap();
        assert_eq!(sub.get("skeptic"), Some(&Value::Str(String::from("*"))));
    }
}

#[test]
fn insert_replaces_in_place_and_appends_fresh_keys() {
    let mut t = Table::new();
    t.insert(String::from("a"), Value::Int(1));
    t.insert(String::from("b"), Value::Int(2));
    t.insert(String::from("a"), Value::Int(3));

    assert_eq!(t.len(), 2);
    assert_eq!(t.get("a"), Some(&Value::Int(3)));
    assert_eq!(t.get("b"), Some(&Value::Int(2)));
    assert!(!t.contains_key("c"));
    assert_eq!(t.get("c"), None);
}
