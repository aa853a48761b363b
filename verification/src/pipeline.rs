//! The pipeline orchestrator.
//!
//! A run walks the stages `Configuring`, `Scaffolding`, `Materializing`,
//! `ManifestWriting`, `Executing` to `Done`; the absorbing `Failed`
//! stage is reachable from every other and halts the run with the first
//! error.  The orchestrator decides every transition; the surrounding
//! binary performs the returned [`Action`] (a file write, a subprocess
//! call) and reports what happened as the next [`Event`].  No action
//! ever removes anything: artifacts written by earlier stages stay on
//! disk whatever happens later.

use vstd::prelude::*;
use vstd::string::StringExecFns;
use crate::Config;
use crate::buildscript::{build_rs, spec_build_rs, chapter_source_paths};
use crate::chapters::{Book, FilePlan, copy_across_book_chapters, plans_match};
use crate::config::{parse_config, spec_parse_config};
use crate::errors::{Error, ErrorKind};
use crate::manifest::{
    Value, Table, ValueModel, TableModel, update_cargo_toml, spec_transform, name_views,
    model_wf, slot_is_table, value_model,
};
use crate::name::{crate_name, spec_sanitize, fallback_name};

verus! {

broadcast use vstd::std_specs::vec::group_vec_axioms, vstd::seq::group_seq_axioms, vstd::string::group_string_axioms;

/// The stages of a run, in order; `Failed` absorbs every error.
#[derive(Debug, Clone, Copy, PartialEq, Eq, Structural)]
pub enum Stage {
    Configuring,
    Scaffolding,
    Materializing,
    ManifestWriting,
    Executing,
    Done,
    Failed,
}

/// What the surrounding binary reports back after performing an action.
#[derive(Debug)]
pub enum Event {
    /// The raw configuration section and the book's declared title.
    Configured { raw: Option<Value>, title: Option<String> },
    /// Whether a manifest file already exists at the destination.
    ManifestChecked { exists: bool },
    /// The init subcommand's outcome: whether it could be spawned, and
    /// whether it exited successfully.
    Scaffolded { spawned: bool, success: bool },
    /// The chapter writes' outcome: the first failing path, if any.
    Materialized { failed_path: Option<String> },
    /// The manifest file, parsed; `read_ok` tells a read failure from a
    /// parse failure when no table could be produced.
    ManifestLoaded { table: Option<Table>, read_ok: bool },
    /// The artifact writes' outcome: whether the manifest could be
    /// rendered back to text, and the first failing path, if any.
    ArtifactsWritten { failed_path: Option<String>, serialize_ok: bool },
    /// The test subcommand's outcome.
    TestsRun { spawned: bool, success: bool },
}

/// What the surrounding binary must do next.  No variant removes
/// anything from disk.
#[derive(Debug)]
pub enum Action {
    /// Look whether the manifest file exists at the destination.
    CheckManifest,
    /// Run the toolchain's project-initialization subcommand with these
    /// arguments, standard input closed.
    RunInit { args: Vec<String> },
    /// Create missing parent directories and write these chapter files.
    WriteChapters { plans: Vec<FilePlan> },
    /// Read and parse the manifest file at the destination.
    LoadManifest,
    /// Write the transformed manifest, the generated build script, and
    /// the source entry point that wires in the generated tests.
    WriteArtifacts { manifest: Value, build_script: String },
    /// Run the toolchain's test subcommand with these arguments, in the
    /// destination directory, standard input closed.
    RunTests { args: Vec<String> },
    /// The run is over.
    Halt,
}

/// The arguments of the project-initialization subcommand.
pub open spec fn spec_init_args(name: Seq<char>, quiet: bool, dir: Seq<char>) -> Seq<Seq<char>> {
    (if quiet {
        seq!["init"@, "--lib"@, "--name"@, name, "--quiet"@]
    } else {
        seq!["init"@, "--lib"@, "--name"@, name]
    }).push(dir)
}

/// The arguments of the test subcommand.
pub open spec fn spec_test_args(quiet: bool) -> Seq<Seq<char>> {
    if quiet {
        seq!["test"@, "--quiet"@]
    } else {
        seq!["test"@]
    }
}

/// Builds the init subcommand's arguments.
fn init_args(name: &str, quiet: bool, dir: &str) -> (r: Vec<String>)
    ensures
        name_views(r@) == spec_init_args(name@, quiet, dir@),
{
    let mut r: Vec<String> = Vec::new();
    r.push("init".to_owned());
    r.push("--lib".to_owned());
    r.push("--name".to_owned());
    r.push(name.to_owned());
    if quiet {
        r.push("--quiet".to_owned());
    }
    r.push(dir.to_owned());
    proof {
        assert(name_views(r@) =~= spec_init_args(name@, quiet, dir@));
    }
    r
}

/// Builds the test subcommand's arguments.
fn test_args(quiet: bool) -> (r: Vec<String>)
    ensures
        name_views(r@) == spec_test_args(quiet),
{
    let mut r: Vec<String> = Vec::new();
    r.push("test".to_owned());
    if quiet {
        r.push("--quiet".to_owned());
    }
    proof {
        assert(name_views(r@) =~= spec_test_args(quiet));
    }
    r
}

/// Whether a loaded manifest can be transformed: keys unique at every
/// level, and each key the transformation touches free to hold a table.
pub open spec fn manifest_acceptable(m: TableModel) -> bool {
    &&& model_wf(ValueModel::Table(m))
    &&& slot_is_table(m, "package"@)
    &&& slot_is_table(m, "dev-dependencies"@)
    &&& slot_is_table(m, "build-dependencies"@)
    &&& slot_is_table(m, "dependencies"@)
}

/// Whether the event is the one the stage awaits.
pub open spec fn event_fits(stage: Stage, event: Event) -> bool {
    match (stage, event) {
        (Stage::Configuring, Event::Configured { .. }) => true,
        (Stage::Scaffolding, Event::ManifestChecked { .. }) => true,
        (Stage::Scaffolding, Event::Scaffolded { .. }) => true,
        (Stage::Materializing, Event::Materialized { .. }) => true,
        (Stage::ManifestWriting, Event::ManifestLoaded { .. }) => true,
        (Stage::ManifestWriting, Event::ArtifactsWritten { .. }) => true,
        (Stage::Executing, Event::TestsRun { .. }) => true,
        _ => false,
    }
}

/// The model of an optional owned configuration value.
pub open spec fn owned_raw_model(raw: Option<Value>) -> Option<ValueModel> {
    match raw {
        Some(v) => Some(value_model(v)),
        None => None,
    }
}

/// The name the crate takes for an optional title.
pub open spec fn spec_crate_name(title: Option<String>) -> Seq<char> {
    match title {
        Some(t) => spec_sanitize(t@),
        None => spec_sanitize(fallback_name()),
    }
}

/// The pipeline: the run's stage, its resolved configuration, the
/// generated crate's name, the destination directory, and the first
/// error, if one struck.
#[derive(Debug)]
pub struct Pipeline {
    pub stage: Stage,
    pub config: Config,
    pub crate_name: String,
    pub destination: String,
    pub error: Option<Error>,
}

impl Pipeline {
    /// The run failed exactly when it holds an error.
    pub open spec fn inv(self) -> bool {
        (self.stage == Stage::Failed) <==> (self.error is Some)
    }

    /// A fresh run against the destination directory, about to resolve
    /// its configuration.
    pub fn new(destination: String) -> (p: Pipeline)
        ensures
            p.stage == Stage::Configuring,

            p.error is None,

            p.destination@ == destination@,

            p.inv(),

    {
        Pipeline {
            stage: Stage::Configuring,
            config: Config::default(),
            crate_name: String::new(),
            destination,
            error: None,
        }
    }

    /// One transition of the run: consumes the event the last action
    /// produced and returns the next action.  An event that does not
    /// fit the stage changes nothing; the `Done` and `Failed` stages
    /// absorb every event.
    #[verifier::loop_isolation(false)]
    pub fn step(&mut self, book: &Book, event: Event) -> (act: Action)
        requires
            old(self).inv(),

            event matches Event::Configured { raw: Some(v), .. } ==> model_wf(value_model(v)),

        ensures
            final(self).inv(),

            !event_fits(old(self).stage, event) ==> *final(self) == *old(self) && act is Halt,

            old(self).stage == Stage::Configuring ==> (event matches Event::Configured {
                raw,
                title,
            } ==> match spec_parse_config(owned_raw_model(raw)) {
                Some(dq) => {
                    &&& final(self).stage == Stage::Scaffolding
                    &&& name_views(final(self).config.dependencies@) == dq.0
                    &&& final(self).config.quiet == dq.1
                    &&& final(self).crate_name@ == spec_crate_name(title)
                    &&& final(self).error is None
                    &&& act is CheckManifest
                },
                None => {
                    &&& final(self).stage == Stage::Failed
                    &&& final(self).error matches Some(e) && e.kind
                        == ErrorKind::ConfigDeserialization
                    &&& act is Halt
                },
            }),
            old(self).stage == Stage::Scaffolding ==> (event matches Event::ManifestChecked {
                exists,
            } ==> {
                &&& (act is RunInit <==> !exists)
                &&& exists ==> final(self).stage == Stage::Materializing && (
                act matches Action::WriteChapters { plans } && plans_match(
                    plans@,
                    book.sections@,
                ))
                &&& !exists ==> final(self).stage == Stage::Scaffolding && (
                act matches Action::RunInit { args } && name_views(args@) == spec_init_args(
                    old(self).crate_name@,
                    old(self).config.quiet,
                    old(self).destination@,
                ))
                &&& final(self).config == old(self).config
                &&& final(self).crate_name == old(self).crate_name
                &&& final(self).error is None
            }),
            old(self).stage == Stage::Scaffolding ==> (event matches Event::Scaffolded {
                spawned,
                success,
            } ==> {
                &&& !spawned ==> final(self).stage == Stage::Failed && (
                final(self).error matches Some(e) && e.kind == ErrorKind::ProcessSpawn)
                    && act is Halt
                &&& spawned && !success ==> final(self).stage == Stage::Failed && (
                final(self).error matches Some(e) && e.kind == ErrorKind::ScaffoldFailure)
                    && act is Halt
                &&& spawned && success ==> final(self).stage == Stage::Materializing && (
                act matches Action::WriteChapters { plans } && plans_match(
                    plans@,
                    book.sections@,
                )) && final(self).error is None
                &&& final(self).config == old(self).config
                &&& final(self).crate_name == old(self).crate_name
            }),
            old(self).stage == Stage::Materializing ==> (event matches Event::Materialized {
                failed_path,
            } ==> match failed_path {
                None => {
                    &&& final(self).stage == Stage::ManifestWriting
                    &&& act is LoadManifest
                    &&& final(self).config == old(self).config
                    &&& final(self).error is None
                },
                Some(p) => {
                    &&& final(self).stage == Stage::Failed
                    &&& final(self).error matches Some(e) && e.kind == ErrorKind::FileWrite
                        && e.messages@.len() == 1 && e.messages@[0]@ == "Unable to copy across "@
                        + p@
                    &&& act is Halt
                },
            }),
            old(self).stage == Stage::ManifestWriting ==> (event matches Event::ManifestLoaded {
                table,
                read_ok,
            } ==> match table {
                None => {
                    &&& final(self).stage == Stage::Failed
                    &&& final(self).error matches Some(e) && e.kind == (if read_ok {
                        ErrorKind::ManifestParse
                    } else {
                        ErrorKind::FileRead
                    })
                    &&& act is Halt
                },
                Some(t) => {
                    &&& manifest_acceptable(t@) ==> {
                        &&& final(self).stage == Stage::ManifestWriting
                        &&& act matches Action::WriteArtifacts { manifest, build_script }
                            && manifest@ == ValueModel::Table(
                            spec_transform(t@, name_views(old(self).config.dependencies@)),
                        ) && build_script@ == spec_build_rs(
                            chapter_source_paths(book.sections@),
                        )
                        &&& final(self).config == old(self).config
                        &&& final(self).error is None
                    }
                    &&& !manifest_acceptable(t@) ==> {
                        &&& final(self).stage == Stage::Failed
                        &&& final(self).error matches Some(e) && e.kind
                            == ErrorKind::ManifestParse
                        &&& act is Halt
                    }
                },
            }),
            old(self).stage == Stage::ManifestWriting ==> (event matches Event::ArtifactsWritten {
                failed_path,
                serialize_ok,
            } ==> {
                &&& !serialize_ok ==> final(self).stage == Stage::Failed && (
                final(self).error matches Some(e) && e.kind == ErrorKind::ManifestSerialize)
                    && act is Halt
                &&& serialize_ok && failed_path is Some ==> final(self).stage == Stage::Failed
                    && (final(self).error matches Some(e) && e.kind == ErrorKind::FileWrite
                    && e.messages@.len() == 1 && e.messages@[0]@ == "Unable to save to "@
                    + failed_path->Some_0@) && act is Halt
                &&& serialize_ok && failed_path is None ==> final(self).stage == Stage::Executing
                    && (act matches Action::RunTests { args } && name_views(args@)
                    == spec_test_args(old(self).config.quiet)) && final(self).error is None
            }),
            old(self).stage == Stage::Executing ==> (event matches Event::TestsRun {
                spawned,
                success,
            } ==> {
                &&& !spawned ==> final(self).stage == Stage::Failed && (
                final(self).error matches Some(e) && e.kind == ErrorKind::ProcessSpawn)
                &&& spawned && !success ==> final(self).stage == Stage::Failed && (
                final(self).error matches Some(e) && e.kind == ErrorKind::TestExecutionFailure)
                &&& spawned && success ==> final(self).stage == Stage::Done && final(self).error
                    is None
                &&& act is Halt
            }),
    {
        match (self.stage, event) {
            (Stage::Configuring, Event::Configured { raw, title }) => {
                match parse_config(raw.as_ref()) {
                    Ok(cfg) => {
                        self.config = cfg;
                        self.crate_name = crate_name(
                            match &title {
                                Some(t) => Some(t.as_str()),
                                None => None,
                            },
                        );
                        self.stage = Stage::Scaffolding;
                        Action::CheckManifest
                    },
                    Err(e) => {
                        self.error = Some(e);
                        self.stage = Stage::Failed;
                        Action::Halt
                    },
                }
            },
            (Stage::Scaffolding, Event::ManifestChecked { exists }) => {
                if exists {
                    self.stage = Stage::Materializing;
                    Action::WriteChapters { plans: copy_across_book_chapters(book) }
                } else {
                    let args = init_args(
                        self.crate_name.as_str(),
                        self.config.quiet,
                        self.destination.as_str(),
                    );
                    Action::RunInit { args }
                }
            },
            (Stage::Scaffolding, Event::Scaffolded { spawned, success }) => {
                if !spawned {
                    self.error = Some(
                        Error::new(ErrorKind::ProcessSpawn, "Unable to invoke cargo".to_owned()),
                    );
                    self.stage = Stage::Failed;
                    Action::Halt
                } else if !success {
                    self.error = Some(
                        Error::new(
                            ErrorKind::ScaffoldFailure,
                            "Couldn't initialize the testing crate".to_owned(),
                        ),
                    );
                    self.stage = Stage::Failed;
                    Action::Halt
                } else {
                    self.stage = Stage::Materializing;
                    Action::WriteChapters { plans: copy_across_book_chapters(book) }
                }
            },
            (Stage::Materializing, Event::Materialized { failed_path }) => {
                match failed_path {
                    None => {
                        self.stage = Stage::ManifestWriting;
                        Action::LoadManifest
                    },
                    Some(p) => {
                        let mut msg: String = "Unable to copy across ".to_owned();
                        msg.append(p.as_str());
                        self.error = Some(Error::new(ErrorKind::FileWrite, msg));
                        self.stage = Stage::Failed;
                        Action::Halt
                    },
                }
            },
            (Stage::ManifestWriting, Event::ManifestLoaded { table, read_ok }) => {
                match table {
                    None => {
                        self.error = Some(
                            if read_ok {
                                Error::new(
                                    ErrorKind::ManifestParse,
                                    "Couldn't parse Cargo.toml".to_owned(),
                                )
                            } else {
                                Error::new(
                                    ErrorKind::FileRead,
                                    "Unable to read Cargo.toml".to_owned(),
                                )
                            },
                        );
                        self.stage = Stage::Failed;
                        Action::Halt
                    },
                    Some(t) => {
                        let acceptable = t.check_wf() && t.slot_free_for_table("package")
                            && t.slot_free_for_table("dev-dependencies")
                            && t.slot_free_for_table("build-dependencies")
                            && t.slot_free_for_table("dependencies");
                        if !acceptable {
                            self.error = Some(
                                Error::new(
                                    ErrorKind::ManifestParse,
                                    "Cargo.toml cannot take the test harness entries".to_owned(),
                                ),
                            );
                            self.stage = Stage::Failed;
                            Action::Halt
                        } else {
                            let manifest = match update_cargo_toml(
                                t,
                                self.config.dependencies.as_slice(),
                            ) {
                                Ok(v) => v,
                                Err(_) => {
                                    proof {
                                        assert(false);
                                    }
                                    Value::Bool(false)
                                },
                            };
                            let build_script = build_rs(book);
                            Action::WriteArtifacts { manifest, build_script }
                        }
                    },
                }
            },
            (Stage::ManifestWriting, Event::ArtifactsWritten { failed_path, serialize_ok }) => {
                if !serialize_ok {
                    self.error = Some(
                        Error::new(
                            ErrorKind::ManifestSerialize,
                            "Couldn't serialize toml".to_owned(),
                        ),
                    );
                    self.stage = Stage::Failed;
                    Action::Halt
                } else {
                    match failed_path {
                        Some(p) => {
                            let mut msg: String = "Unable to save to ".to_owned();
                            msg.append(p.as_str());
                            self.error = Some(Error::new(ErrorKind::FileWrite, msg));
                            self.stage = Stage::Failed;
                            Action::Halt
                        },
                        None => {
                            self.stage = Stage::Executing;
                            Action::RunTests { args: test_args(self.config.quiet) }
                        },
                    }
                }
            },
            (Stage::Executing, Event::TestsRun { spawned, success }) => {
                if !spawned {
                    self.error = Some(
                        Error::new(ErrorKind::ProcessSpawn, "Unable to invoke cargo".to_owned()),
                    );
                    self.stage = Stage::Failed;
                } else if !success {
                    self.error = Some(
                        Error::new(ErrorKind::TestExecutionFailure, "The tests failed".to_owned()),
                    );
                    self.stage = Stage::Failed;
                } else {
                    self.stage = Stage::Done;
                }
                Action::Halt
            },
            _ => Action::Halt,
        }
    }
}

} // verus!
