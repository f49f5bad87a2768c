//! The errors of a build.

use vstd::prelude::*;
use vstd::string::StringExecFns;
use crate::text::{decimal, joined, spec_decimal};

verus! {

/// The mathematical value of a [`ToolFailure`].
pub struct ToolFailureView {
    pub subject: Seq<char>,
    pub status: Option<i32>,
    pub diagnostics: Seq<char>,
}

/// What is known of a tool run that did not succeed.
#[derive(Debug, Clone, PartialEq, Eq)]
pub struct ToolFailure {
    /// The file that the tool was run for.
    pub subject: String,
    /// The exit status, where the tool ran and left one.
    pub status: Option<i32>,
    /// What the tool reported, or why it could not be run.
    pub diagnostics: String,
}

impl View for ToolFailure {
    type V = ToolFailureView;

    open spec fn view(&self) -> ToolFailureView {
        ToolFailureView {
            subject: self.subject@,
            status: self.status,
            diagnostics: self.diagnostics@,
        }
    }
}

/// The mathematical value of a [`BuildError`].
pub enum BuildErrorView {
    EnvVar(Seq<char>),
    Io(Seq<char>),
    LibraryNotFound(Seq<char>),
    RssPathNotFound,
    StubGenerationFailed(Seq<char>),
    BindgenError(Seq<char>),
    PythonError(Seq<char>),
    HeadersNotFound(Seq<char>),
    ExtractionError(Seq<char>),
    SynthesisError(Seq<char>),
    CompilationError(ToolFailureView),
    ArchiveError(ToolFailureView),
    ValidationError(ToolFailureView),
}

/// Why a build did not complete.
#[derive(Debug, Clone, PartialEq, Eq)]
pub enum BuildError {
    /// An environment variable could not be read.
    EnvVar(String),
    /// Reading or writing a file failed.
    Io(String),
    /// The SDK's libraries are not at the given place.
    LibraryNotFound(String),
    /// The SDK's directory does not exist.
    RssPathNotFound,
    /// Stub generation failed for a reason that no other variant names.
    StubGenerationFailed(String),
    /// The binding generator failed.
    BindgenError(String),
    /// A helper script failed.
    PythonError(String),
    /// The directory of headers does not exist.
    HeadersNotFound(String),
    /// A header could not be read or its declarations could not be resolved.
    ExtractionError(String),
    /// A synthesized source file could not be written.
    SynthesisError(String),
    /// The compiler did not succeed.
    CompilationError(ToolFailure),
    /// The archiver did not succeed.
    ArchiveError(ToolFailure),
    /// The symbol-dump tool did not succeed on an archive.
    ValidationError(ToolFailure),
}

impl View for BuildError {
    type V = BuildErrorView;

    open spec fn view(&self) -> BuildErrorView {
        match self {
            BuildError::EnvVar(s) => BuildErrorView::EnvVar(s@),
            BuildError::Io(s) => BuildErrorView::Io(s@),
            BuildError::LibraryNotFound(s) => BuildErrorView::LibraryNotFound(s@),
            BuildError::RssPathNotFound => BuildErrorView::RssPathNotFound,
            BuildError::StubGenerationFailed(s) => BuildErrorView::StubGenerationFailed(s@),
            BuildError::BindgenError(s) => BuildErrorView::BindgenError(s@),
            BuildError::PythonError(s) => BuildErrorView::PythonError(s@),
            BuildError::HeadersNotFound(s) => BuildErrorView::HeadersNotFound(s@),
            BuildError::ExtractionError(s) => BuildErrorView::ExtractionError(s@),
            BuildError::SynthesisError(s) => BuildErrorView::SynthesisError(s@),
            BuildError::CompilationError(f) => BuildErrorView::CompilationError(f@),
            BuildError::ArchiveError(f) => BuildErrorView::ArchiveError(f@),
            BuildError::ValidationError(f) => BuildErrorView::ValidationError(f@),
        }
    }
}

/// How an exit status reads in a message.
pub open spec fn spec_status_text(status: Option<i32>) -> Seq<char> {
    match status {
        Some(code) => "exit status "@ + spec_decimal(code as int),
        None => "no exit status"@,
    }
}

/// How a failed tool run reads in a message: the file, the exit status and,
/// where there are any, the diagnostics.
pub open spec fn spec_failure_text(f: ToolFailureView) -> Seq<char> {
    f.subject + " ("@ + spec_status_text(f.status) + ")"@ + (if f.diagnostics.len() == 0 {
        Seq::empty()
    } else {
        ": "@ + f.diagnostics
    })
}

/// The message of an error.
pub open spec fn spec_message(e: BuildErrorView) -> Seq<char> {
    match e {
        BuildErrorView::EnvVar(s) => "Environment variable error: "@ + s,
        BuildErrorView::Io(s) => "IO error: "@ + s,
        BuildErrorView::LibraryNotFound(s) => "Library not found at: "@ + s,
        BuildErrorView::RssPathNotFound => "RSS directory not found"@,
        BuildErrorView::StubGenerationFailed(s) => "Stub generation failed: "@ + s,
        BuildErrorView::BindgenError(s) => "Bindgen error: "@ + s,
        BuildErrorView::PythonError(s) => "Python script error: "@ + s,
        BuildErrorView::HeadersNotFound(s) => "Headers not found at: "@ + s,
        BuildErrorView::ExtractionError(s) => "Extraction error: "@ + s,
        BuildErrorView::SynthesisError(s) => "Synthesis error: "@ + s,
        BuildErrorView::CompilationError(f) => "Compilation error: Failed to compile "@
            + spec_failure_text(f),
        BuildErrorView::ArchiveError(f) => "Archive error: Failed to create archive "@
            + spec_failure_text(f),
        BuildErrorView::ValidationError(f) => "Validation error: Failed to validate stub library "@
            + spec_failure_text(f),
    }
}

impl ToolFailure {
    /// How this failure reads in a message.
    pub fn describe(&self) -> (s: String)
        ensures
            s@ == spec_failure_text(self@),
    {
        let status = match self.status {
            Some(code) => joined("exit status ", decimal(code).as_str()),
            None => "no exit status".to_owned(),
        };
        let mut s = String::new();
        s.append(self.subject.as_str());
        s.append(" (");
        s.append(status.as_str());
        s.append(")");
        if self.diagnostics.as_str().unicode_len() == 0 {
            proof {
                assert(s@ =~= spec_failure_text(self@));
            }
        } else {
            s.append(": ");
            s.append(self.diagnostics.as_str());
            proof {
                assert(s@ =~= spec_failure_text(self@));
            }
        }
        s
    }
}

impl BuildError {
    /// The message of this error.
    pub fn message(&self) -> (s: String)
        ensures
            s@ == spec_message(self@),
    {
        match self {
            BuildError::EnvVar(d) => joined("Environment variable error: ", d.as_str()),
            BuildError::Io(d) => joined("IO error: ", d.as_str()),
            BuildError::LibraryNotFound(d) => joined("Library not found at: ", d.as_str()),
            BuildError::RssPathNotFound => "RSS directory not found".to_owned(),
            BuildError::StubGenerationFailed(d) => joined("Stub generation failed: ", d.as_str()),
            BuildError::BindgenError(d) => joined("Bindgen error: ", d.as_str()),
            BuildError::PythonError(d) => joined("Python script error: ", d.as_str()),
            BuildError::HeadersNotFound(d) => joined("Headers not found at: ", d.as_str()),
            BuildError::ExtractionError(d) => joined("Extraction error: ", d.as_str()),
            BuildError::SynthesisError(d) => joined("Synthesis error: ", d.as_str()),
            BuildError::CompilationError(f) => joined(
                "Compilation error: Failed to compile ",
                f.describe().as_str(),
            ),
            BuildError::ArchiveError(f) => joined(
                "Archive error: Failed to create archive ",
                f.describe().as_str(),
            ),
            BuildError::ValidationError(f) => joined(
                "Validation error: Failed to validate stub library ",
                f.describe().as_str(),
            ),
        }
    }
}

} // verus!
