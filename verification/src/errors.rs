//! The error type of the pipeline.
//!
//! An error carries a kind, which callers branch on, and an ordered
//! chain of human-readable messages: the first message describes the
//! failing operation, the following ones the underlying causes, from
//! the outermost wrapper down to the root cause.

use vstd::prelude::*;
use vstd::string::StringExecFns;

verus! {

/// What went wrong, as a category the caller can branch on.
#[derive(Debug, Clone, Copy, PartialEq, Eq, Structural)]
pub enum ErrorKind {
    /// The configuration section could not be read as a configuration.
    ConfigDeserialization,
    /// A directory could not be created.
    DirectoryCreation,
    /// A file could not be written.
    FileWrite,
    /// A file could not be read.
    FileRead,
    /// The manifest text could not be parsed.
    ManifestParse,
    /// The manifest could not be rendered back to text.
    ManifestSerialize,
    /// The external toolchain could not be launched at all.
    ProcessSpawn,
    /// The project-initialization subcommand ran and exited non-zero.
    ScaffoldFailure,
    /// The test subcommand ran and exited non-zero.
    TestExecutionFailure,
}

/// An error of the pipeline: a kind and a chain of messages, the
/// outermost context first, the root cause last.
#[derive(Debug)]
pub struct Error {
    pub kind: ErrorKind,
    pub messages: Vec<String>,
}

impl Error {
    /// An error of the kind with a single message.
    pub fn new(kind: ErrorKind, message: String) -> (e: Error)
        ensures
            e.kind == kind,
            e.messages@.len() == 1,
            e.messages@[0]@ == message@,
    {
        let mut messages: Vec<String> = Vec::new();
        messages.push(message);
        Error { kind, messages }
    }

    /// The same error wrapped in one more layer of context: the new
    /// message becomes the outermost one.
    pub fn context(self, message: String) -> (e: Error)
        ensures
            e.kind == self.kind,
            e.messages@.len() == self.messages@.len() + 1,
            e.messages@[0] == message,
            forall|i: int|
                0 <= i < self.messages@.len() ==> e.messages@[i + 1] == self.messages@[i],
    {
        let mut messages = self.messages;
        messages.insert(0, message);
        Error { kind: self.kind, messages }
    }

    /// The kind of the error.
    pub fn kind(&self) -> (k: ErrorKind)
        ensures
            k == self.kind,
    {
        self.kind
    }

    /// The chain rendered for display, one line per link: the outermost
    /// message under an `Error: ` heading, every underlying cause under
    /// an indented `Caused By: ` heading, in chain order.
    pub fn render_lines(&self) -> (lines: Vec<String>)
        ensures
            lines@.len() == self.messages@.len(),
            forall|i: int|
                0 <= i < lines@.len() ==> (#[trigger] lines@[i])@ == if i == 0 {
                    "Error: "@ + self.messages@[0]@
                } else {
                    "\tCaused By: "@ + self.messages@[i]@
                },
    {
        let mut lines: Vec<String> = Vec::new();
        let n = self.messages.len();
        let mut i: usize = 0;
        while i < n
            invariant
                i <= n,
                n == self.messages@.len(),
                lines@.len() == i,
                forall|j: int|
                    0 <= j < i ==> (#[trigger] lines@[j])@ == if j == 0 {
                        "Error: "@ + self.messages@[0]@
                    } else {
                        "\tCaused By: "@ + self.messages@[j]@
                    },
            decreases n - i,
    {
            let mut line: String = if i == 0 {
                "Error: ".to_owned()
            } else {
                "\tCaused By: ".to_owned()
            };
            line.append(self.messages[i].as_str());
            lines.push(line);
            i += 1;
        }
        lines
    }
}

} // verus!
