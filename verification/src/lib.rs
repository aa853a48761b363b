//! Test the code samples embedded in a book's chapters.
//!
//! The library plans and checks every step of a harness-generation
//! pipeline: it models the book's chapters and the generated crate's
//! manifest as plain data, transforms the manifest to declare the
//! dependencies and build script that snippet extraction needs, renders
//! the build script, and decides each stage transition of the run.
//! The surrounding binary performs the file writes and process calls
//! that the plans describe.

pub mod buildscript;
pub mod chapters;
pub mod config;
pub mod errors;
pub mod manifest;
pub mod name;
pub mod pipeline;
pub mod strutil;

use vstd::prelude::*;

verus! {

/// The configuration for a test run, read from the book's
/// `output.test` configuration table.
#[derive(Debug, Clone)]
pub struct Config {
    /// Extra crates the generated test crate depends on.
    pub dependencies: Vec<String>,
    /// Whether the external toolchain is invoked with its quiet flag.
    pub quiet: bool,
}

impl Default for Config {
    /// A default configuration: no extra dependencies, quiet output.
    fn default() -> (c: Config)
        ensures
            c.dependencies@ =~= Seq::<String>::empty(),
            c.quiet == true,
    {
        Config { dependencies: Vec::new(), quiet: true }
    }
}

/// The renderer the host discovers: a thin identity around the
/// pipeline, so the core stays host-independent.
#[derive(Debug, Clone, Copy, PartialEq, Eq, Structural)]
pub struct TestRenderer;

impl TestRenderer {
    /// The name under which the host knows this renderer.
    pub fn name(&self) -> (r: &'static str)
        ensures
            r@ == "test_renderer"@,
    {
        "test_renderer"
    }
}

impl Default for TestRenderer {
    fn default() -> (r: TestRenderer)
        ensures
            r == TestRenderer,
    {
        TestRenderer
    }
}

} // verus!
