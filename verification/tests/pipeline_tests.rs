use mdbook_test::chapters::{Book, BookItem, Chapter, copy_across_book_chapters};
use mdbook_test::buildscript::build_rs;
use mdbook_test::config::parse_config;
use mdbook_test::errors::{Error, ErrorKind};
use mdbook_test::manifest::{Table, Value};
use mdbook_test::name::crate_name;
use mdbook_test::pipeline::{Action, Event, Pipeline, Stage};

fn chapter(path: &str, content: &str) -> BookItem {
    let name = path.rsplit('/').next().unwrap().to_string();
    BookItem::Chapter(Chapter {
        name,
        content: content.to_string(),
        path: path.to_string(),
    })
}

fn sample_book() -> Book {
    Book {
        sections: vec![
            chapter("first.md", "# First\n"),
            BookItem::Separator,
            chapter("second.md", "# Second\n"),
            chapter("nested/third.md", "# Third\n"),
        ],
    }
}

fn cargo_init_manifest() -> Table {
    let mut package = Table::new();
    package.insert(String::from("name"), Value::Str(String::from("my_book")));
    package.insert(String::from("version"), Value::Str(String::from("0.1.0")));
    let mut manifest = Table::new();
    manifest.insert(String::from("package"), Value::Table(package));
    manifest
}

fn test_config() -> Value {
    let mut cfg = Table::new();
    cfg.insert(
        String::from("dependencies"),
        Value::Array(vec![Value::Str(String::from("bitflags"))]),
    );
    Value::Table(cfg)
}

#[test]
fn chapters_are_materialized_with_their_exact_content() {
    let plans = copy_across_book_chapters(&sample_book());

    assert_eq!(plans.len(), 3);
    assert_eq!(plans[0].path, "src/first.md");
    assert_eq!(plans[0].content, "# First\n");
    assert_eq!(plans[1].path, "src/second.md");
    assert_eq!(plans[1].content, "# Second\n");
    assert_eq!(plans[2].path, "src/nested/third.md");
    assert_eq!(plans[2].content, "# Third\n");
}

#[test]
fn build_script_names_every_chapter_in_order() {
    let script = build_rs(&sample_book());

    let expected = "fn main() {\n    skeptic::generate_doc_tests(&[\n        \
                    r\"src/first.md\", r\"src/second.md\", r\"src/nested/third.md\"\n    ]);\n}\n";
    assert_eq!(script, expected);
}

#[test]
fn build_script_for_an_empty_book_has_an_empty_list() {
    let script = build_rs(&Book { sections: vec![BookItem::Separator] });
    let expected = "fn main() {\n    skeptic::generate_doc_tests(&[\n        \n    ]);\n}\n";
    assert_eq!(script, expected);
}

#[test]
fn crate_names_are_sanitized_from_the_title() {
    assert_eq!(crate_name(Some("My Book-Title")), "my_book_title");
    assert_eq!(crate_name(None), "test_crate");
}

#[test]
fn missing_configuration_takes_the_defaults() {
    let cfg = parse_config(None).unwrap();
    assert!(cfg.dependencies.is_empty());
    assert!(cfg.quiet);
}

#[test]
fn configuration_fields_are_read() {
    let mut section = Table::new();
    section.insert(
        String::from("dependencies"),
        Value::Array(vec![
            Value::Str(String::from("foo")),
            Value::Str(String::from("bar")),
        ]),
    );
    section.insert(String::from("quiet"), Value::Bool(false));
    let raw = Value::Table(section);

    let cfg = parse_config(Some(&raw)).unwrap();
    assert_eq!(cfg.dependencies, vec!["foo".to_string(), "bar".to_string()]);
    assert!(!cfg.quiet);
}

#[test]
fn a_malformed_configuration_is_a_configuration_error() {
    let raw = Value::Bool(true);
    let err = parse_config(Some(&raw)).unwrap_err();
    assert_eq!(err.kind(), ErrorKind::ConfigDeserialization);

    let mut section = Table::new();
    section.insert(String::from("quiet"), Value::Str(String::from("yes")));
    let raw = Value::Table(section);
    let err = parse_config(Some(&raw)).unwrap_err();
    assert_eq!(err.kind(), ErrorKind::ConfigDeserialization);

    let mut section = Table::new();
    section.insert(
        String::from("dependencies"),
        Value::Array(vec![Value::Int(3)]),
    );
    let raw = Value::Table(section);
    let err = parse_config(Some(&raw)).unwrap_err();
    assert_eq!(err.kind(), ErrorKind::ConfigDeserialization);
}

#[test]
fn scaffolding_is_skipped_when_a_manifest_exists() {
    let book = sample_book();

    let mut p = Pipeline::new(String::from("/tmp/book"));
    p.step(&book, Event::Configured { raw: None, title: None });
    let act = p.step(&book, Event::ManifestChecked { exists: true });
    assert!(!matches!(act, Action::RunInit { .. }));
    assert!(matches!(act, Action::WriteChapters { .. }));

    let mut p = Pipeline::new(String::from("/tmp/book"));
    p.step(&book, Event::Configured { raw: None, title: Some(String::from("My Book")) });
    let act = p.step(&book, Event::ManifestChecked { exists: false });
    match act {
        Action::RunInit { args } => {
            assert_eq!(
                args,
                vec![
                    "init".to_string(),
                    "--lib".to_string(),
                    "--name".to_string(),
                    "my_book".to_string(),
                    "--quiet".to_string(),
                    "/tmp/book".to_string(),
                ]
            );
        }
        other => panic!("expected the init subcommand, got {:?}", other),
    }
}

#[test]
fn a_full_run_produces_every_artifact() {
    let book = sample_book();
    let mut p = Pipeline::new(String::from("/tmp/book"));

    let act = p.step(
        &book,
        Event::Configured { raw: Some(test_config()), title: Some(String::from("My Book")) },
    );
    assert!(matches!(act, Action::CheckManifest));

    let act = p.step(&book, Event::ManifestChecked { exists: false });
    assert!(matches!(act, Action::RunInit { .. }));

    let act = p.step(&book, Event::Scaffolded { spawned: true, success: true });
    let plans = match act {
        Action::WriteChapters { plans } => plans,
        _ => panic!("expected the chapter writes"),
    };
    assert_eq!(plans.len(), 3);
    assert_eq!(plans[2].path, "src/nested/third.md");

    let act = p.step(&book, Event::Materialized { failed_path: None });
    assert!(matches!(act, Action::LoadManifest));

    let act = p.step(
        &book,
        Event::ManifestLoaded { table: Some(cargo_init_manifest()), read_ok: true },
    );
    let (manifest, build_script) = match act {
        Action::WriteArtifacts { manifest, build_script } => (manifest, build_script),
        _ => panic!("expected the artifact writes"),
    };

    let table = manifest.as_table().unwrap();
    let package = table.get("package").and_then(Value::as_table).unwrap();
    assert_eq!(package.get("build"), Some(&Value::Str(String::from("build.rs"))));
    assert_eq!(package.get("name"), Some(&Value::Str(String::from("my_book"))));
    let deps = table.get("dependencies").and_then(Value::as_table).unwrap();
    assert_eq!(deps.get("bitflags"), Some(&Value::Str(String::from("*"))));
    assert!(build_script.contains("r\"src/first.md\""));
    assert!(build_script.contains("r\"src/second.md\""));
    assert!(build_script.contains("r\"src/nested/third.md\""));

    let act = p.step(&book, Event::ArtifactsWritten { failed_path: None, serialize_ok: true });
    match act {
        Action::RunTests { args } => {
            assert_eq!(args, vec!["test".to_string(), "--quiet".to_string()]);
        }
        _ => panic!("expected the test subcommand"),
    }

    let act = p.step(&book, Event::TestsRun { spawned: true, success: true });
    assert!(matches!(act, Action::Halt));
    assert_eq!(p.stage, Stage::Done);
    assert!(p.error.is_none());
}

fn run_until_tests(book: &Book) -> Pipeline {
    let mut p = Pipeline::new(String::from("/tmp/book"));
    p.step(book, Event::Configured { raw: None, title: None });
    p.step(book, Event::ManifestChecked { exists: true });
    p.step(book, Event::Materialized { failed_path: None });
    p.step(
        book,
        Event::ManifestLoaded { table: Some(cargo_init_manifest()), read_ok: true },
    );
    p.step(book, Event::ArtifactsWritten { failed_path: None, serialize_ok: true });
    p
}

#[test]
fn failing_tests_fail_the_run_as_a_test_execution_failure() {
    let book = sample_book();
    let mut p = run_until_tests(&book);
    assert_eq!(p.stage, Stage::Executing);

    let act = p.step(&book, Event::TestsRun { spawned: true, success: false });
    assert!(matches!(act, Action::Halt));
    assert_eq!(p.stage, Stage::Failed);
    assert_eq!(p.error.as_ref().unwrap().kind(), ErrorKind::TestExecutionFailure);
}

#[test]
fn an_unlaunchable_toolchain_is_a_spawn_error() {
    let book = sample_book();
    let mut p = run_until_tests(&book);
    p.step(&book, Event::TestsRun { spawned: false, success: false });
    assert_eq!(p.error.as_ref().unwrap().kind(), ErrorKind::ProcessSpawn);
}

#[test]
fn a_failed_init_is_a_scaffold_failure() {
    let book = sample_book();

    let mut p = Pipeline::new(String::from("/tmp/book"));
    p.step(&book, Event::Configured { raw: None, title: None });
    p.step(&book, Event::ManifestChecked { exists: false });
    p.step(&book, Event::Scaffolded { spawned: true, success: false });
    assert_eq!(p.error.as_ref().unwrap().kind(), ErrorKind::ScaffoldFailure);

    let mut p = Pipeline::new(String::from("/tmp/book"));
    p.step(&book, Event::Configured { raw: None, title: None });
    p.step(&book, Event::ManifestChecked { exists: false });
    p.step(&book, Event::Scaffolded { spawned: false, success: false });
    assert_eq!(p.error.as_ref().unwrap().kind(), ErrorKind::ProcessSpawn);
}

#[test]
fn a_failed_chapter_write_names_the_chapter() {
    let book = sample_book();
    let mut p = Pipeline::new(String::from("/tmp/book"));
    p.step(&book, Event::Configured { raw: None, title: None });
    p.step(&book, Event::ManifestChecked { exists: true });
    p.step(
        &book,
        Event::Materialized { failed_path: Some(String::from("src/nested/third.md")) },
    );
    let err = p.error.as_ref().unwrap();
    assert_eq!(err.kind(), ErrorKind::FileWrite);
    assert_eq!(err.messages[0], "Unable to copy across src/nested/third.md");
}

#[test]
fn manifest_read_and_parse_failures_are_told_apart() {
    let book = sample_book();

    let mut p = Pipeline::new(String::from("/tmp/book"));
    p.step(&book, Event::Configured { raw: None, title: None });
    p.step(&book, Event::ManifestChecked { exists: true });
    p.step(&book, Event::Materialized { failed_path: None });
    p.step(&book, Event::ManifestLoaded { table: None, read_ok: false });
    assert_eq!(p.error.as_ref().unwrap().kind(), ErrorKind::FileRead);

    let mut p = Pipeline::new(String::from("/tmp/book"));
    p.step(&book, Event::Configured { raw: None, title: None });
    p.step(&book, Event::ManifestChecked { exists: true });
    p.step(&book, Event::Materialized { failed_path: None });
    p.step(&book, Event::ManifestLoaded { table: None, read_ok: true });
    assert_eq!(p.error.as_ref().unwrap().kind(), ErrorKind::ManifestParse);
}

#[test]
fn artifact_write_failures_keep_their_kinds() {
    let book = sample_book();

    let mut p = run_until_tests(&book);
    assert_eq!(p.stage, Stage::Executing);

    let mut p = Pipeline::new(String::from("/tmp/book"));
    p.step(&book, Event::Configured { raw: None, title: None });
    p.step(&book, Event::ManifestChecked { exists: true });
    p.step(&book, Event::Materialized { failed_path: None });
    p.step(
        &book,
        Event::ManifestLoaded { table: Some(cargo_init_manifest()), read_ok: true },
    );
    p.step(&book, Event::ArtifactsWritten { failed_path: None, serialize_ok: false });
    assert_eq!(p.error.as_ref().unwrap().kind(), ErrorKind::ManifestSerialize);

    let mut p = Pipeline::new(String::from("/tmp/book"));
    p.step(&book, Event::Configured { raw: None, title: None });
    p.step(&book, Event::ManifestChecked { exists: true });
    p.step(&book, Event::Materialized { failed_path: None });
    p.step(
        &book,
        Event::ManifestLoaded { table: Some(cargo_init_manifest()), read_ok: true },
    );
    p.step(
        &book,
        Event::ArtifactsWritten {
            failed_path: Some(String::from("Cargo.toml")),
            serialize_ok: true,
        },
    );
    let err = p.error.as_ref().unwrap();
    assert_eq!(err.kind(), ErrorKind::FileWrite);
    assert_eq!(err.messages[0], "Unable to save to Cargo.toml");
}

#[test]
fn error_chains_render_one_line_per_cause() {
    let err = Error::new(ErrorKind::ProcessSpawn, String::from("no such binary"))
        .context(String::from("Unable to invoke cargo"));
    let lines = err.render_lines();
    assert_eq!(
        lines,
        vec![
            "Error: Unable to invoke cargo".to_string(),
            "\tCaused By: no such binary".to_string(),
        ]
    );
}

#[test]
fn the_renderer_reports_its_name() {
    let renderer = mdbook_test::TestRenderer::default();
    assert_eq!(renderer.name(), "test_renderer");
}

#[test]
fn a_manifest_with_duplicate_keys_is_rejected() {
    let book = sample_book();
    let mut p = Pipeline::new(String::from("/tmp/book"));
    p.step(&book, Event::Configured { raw: None, title: None });
    p.step(&book, Event::ManifestChecked { exists: true });
    p.step(&book, Event::Materialized { failed_path: None });

    let broken = Table {
        entries: vec![
            (String::from("package"), Value::Table(Table::new())),
            (String::from("package"), Value::Table(Table::new())),
        ],
    };
    let act = p.step(&book, Event::ManifestLoaded { table: Some(broken), read_ok: true });
    assert!(matches!(act, Action::Halt));
    assert_eq!(p.stage, Stage::Failed);
    assert_eq!(p.error.as_ref().unwrap().kind(), ErrorKind::ManifestParse);
}

#[test]
fn a_manifest_whose_package_is_no_table_is_rejected() {
    let book = sample_book();
    let mut p = Pipeline::new(String::from("/tmp/book"));
    p.step(&book, Event::Configured { raw: None, title: None });
    p.step(&book, Event::ManifestChecked { exists: true });
    p.step(&book, Event::Materialized { failed_path: None });

    let mut broken = Table::new();
    broken.insert(String::from("package"), Value::Str(String::from("nonsense")));
    let act = p.step(&book, Event::ManifestLoaded { table: Some(broken), read_ok: true });
    assert!(matches!(act, Action::Halt));
    assert_eq!(p.stage, Stage::Failed);
    assert_eq!(p.error.as_ref().unwrap().kind(), ErrorKind::ManifestParse);
}
