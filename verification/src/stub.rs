//! Turning synthesized sources into static archives: which tools to run
//! with which arguments, and what their outcomes mean.
//!
//! The functions here run nothing. They hand out invocations and judge the
//! outcomes that the caller reports back.

use vstd::prelude::*;
use vstd::string::StringExecFns;
use crate::error::{BuildError, BuildErrorView, ToolFailure, ToolFailureView};
use crate::generator::{spec_enabled_header_groups, StubGenerator};
use crate::groups::{
    enabled_groups, spec_artifact, spec_artifact_views, spec_enabled_groups, spec_group_views,
    spec_header_group, ArtifactView, Capabilities, GroupId, HeaderGroup, HeaderGroupView,
    StubArtifact,
};
use crate::registry::spec_default_values;
use crate::text::spec_texts;

verus! {

/// The mathematical value of a [`ToolInvocation`].
pub struct InvocationView {
    pub program: Seq<char>,
    pub arguments: Seq<Seq<char>>,
}

/// A program to run, with its arguments.
#[derive(Debug, Clone, PartialEq, Eq)]
pub struct ToolInvocation {
    pub program: String,
    pub arguments: Vec<String>,
}

impl View for ToolInvocation {
    type V = InvocationView;

    open spec fn view(&self) -> InvocationView {
        InvocationView { program: self.program@, arguments: spec_texts(self.arguments@) }
    }
}

/// The mathematical value of a [`ToolOutcome`].
pub enum OutcomeView {
    Exited { status: Option<i32>, diagnostics: Seq<char> },
    NotStarted { reason: Seq<char> },
}

/// What became of one tool invocation.
#[derive(Debug, Clone, PartialEq, Eq)]
pub enum ToolOutcome {
    /// The tool ran and ended, with an exit status unless a signal ended
    /// it, and with what it wrote as diagnostics.
    Exited { status: Option<i32>, diagnostics: String },
    /// The tool could not be started.
    NotStarted { reason: String },
}

impl View for ToolOutcome {
    type V = OutcomeView;

    open spec fn view(&self) -> OutcomeView {
        match self {
            ToolOutcome::Exited { status, diagnostics } => OutcomeView::Exited {
                status: *status,
                diagnostics: diagnostics@,
            },
            ToolOutcome::NotStarted { reason } => OutcomeView::NotStarted { reason: reason@ },
        }
    }
}

/// The mathematical value of a [`BuildJob`].
pub struct BuildJobView {
    pub artifact: ArtifactView,
    pub source_path: Seq<char>,
    pub object_path: Seq<char>,
    pub archive_path: Seq<char>,
    pub include_dir: Seq<char>,
}

/// The files of one header group, by name and by path, and the directory
/// of the headers.
#[derive(Debug, Clone)]
pub struct BuildJob {
    pub artifact: StubArtifact,
    pub source_path: String,
    pub object_path: String,
    pub archive_path: String,
    pub include_dir: String,
}

impl View for BuildJob {
    type V = BuildJobView;

    open spec fn view(&self) -> BuildJobView {
        BuildJobView {
            artifact: self.artifact@,
            source_path: self.source_path@,
            object_path: self.object_path@,
            archive_path: self.archive_path@,
            include_dir: self.include_dir@,
        }
    }
}

/// A tool succeeded if it ran and left the exit status zero.
pub open spec fn spec_succeeded(outcome: OutcomeView) -> bool {
    outcome matches OutcomeView::Exited { status: Some(code), .. } && code == 0
}

/// What is reported of a tool that was run for `subject` and did not
/// succeed.
pub open spec fn spec_failure(subject: Seq<char>, outcome: OutcomeView) -> ToolFailureView {
    match outcome {
        OutcomeView::Exited { status, diagnostics } => ToolFailureView {
            subject,
            status,
            diagnostics,
        },
        OutcomeView::NotStarted { reason } => ToolFailureView {
            subject,
            status: None,
            diagnostics: reason,
        },
    }
}

/// The files to build under `caps`: one triple per enabled group, in
/// processing order.
pub open spec fn spec_artifacts(caps: Capabilities) -> Seq<ArtifactView> {
    Seq::new(spec_enabled_groups(caps).len(), |i: int| spec_artifact(spec_enabled_groups(caps)[i]))
}

/// The archives to validate under `caps`: those of the enabled groups where
/// the symbol-dump tool is available, none where it is not.
pub open spec fn spec_archives_to_validate(caps: Capabilities, available: bool) -> Seq<Seq<char>> {
    if available {
        Seq::new(spec_artifacts(caps).len(), |i: int| spec_artifacts(caps)[i].archive)
    } else {
        Seq::empty()
    }
}

/// The compiler run that turns the source of `job` into its object file:
/// for a Cortex-M4 with hardware floating point, optimized, with objects
/// that serve with and without link-time optimization, warnings being
/// errors.
pub open spec fn spec_compile_invocation(job: BuildJobView) -> InvocationView {
    InvocationView {
        program: "arm-none-eabi-gcc"@,
        arguments: seq![
            "-c"@,
            job.source_path,
            "-o"@,
            job.object_path,
            "-I"@,
            job.include_dir,
            "-mcpu=cortex-m4"@,
            "-mthumb"@,
            "-mfloat-abi=hard"@,
            "-mfpu=fpv4-sp-d16"@,
            "-DTARGET_ARCH_cm4"@,
            "-DFLOAT_ABI_HARD"@,
            "-std=c99"@,
            "-MMD"@,
            "-MP"@,
            "-O2"@,
            "-g"@,
            "-fno-math-errno"@,
            "-ffunction-sections"@,
            "-fdata-sections"@,
            "-flto=auto"@,
            "-ffat-lto-objects"@,
            "-Werror"@,
        ],
    }
}

/// The archiver run that wraps the object file of `job` into its archive.
pub open spec fn spec_archive_invocation(job: BuildJobView) -> InvocationView {
    InvocationView {
        program: "arm-none-eabi-ar"@,
        arguments: seq!["rcs"@, job.archive_path, job.object_path],
    }
}

/// The symbol-dump run that reads the archive at `archive_path`.
pub open spec fn spec_validate_invocation(archive_path: Seq<char>) -> InvocationView {
    InvocationView { program: "arm-none-eabi-nm"@, arguments: seq![archive_path] }
}

/// The run that shows whether the symbol-dump tool can be started.
pub open spec fn spec_probe_invocation() -> InvocationView {
    InvocationView { program: "arm-none-eabi-nm"@, arguments: Seq::empty() }
}

impl ToolOutcome {
    /// Whether the tool ran and left the exit status zero.
    pub fn succeeded(&self) -> (r: bool)
        ensures
            r == spec_succeeded(self@),
    {
        match self {
            ToolOutcome::Exited { status: Some(code), .. } => *code == 0,
            _ => false,
        }
    }

    /// What is reported of this outcome for a tool run for `subject`.
    pub fn failure(&self, subject: &str) -> (r: ToolFailure)
        ensures
            r@ == spec_failure(subject@, self@),
    {
        match self {
            ToolOutcome::Exited { status, diagnostics } => ToolFailure {
                subject: subject.to_owned(),
                status: *status,
                diagnostics: diagnostics.clone(),
            },
            ToolOutcome::NotStarted { reason } => ToolFailure {
                subject: subject.to_owned(),
                status: None,
                diagnostics: reason.clone(),
            },
        }
    }
}

/// Decides whether stubs can be generated from the headers in
/// `include_dir`, given whether that directory exists, and hands out the
/// generator for the groups that `caps` switches on.
pub fn generate_stubs(include_dir: &str, include_dir_exists: bool, caps: Capabilities) -> (r:
    Result<StubGenerator, BuildError>)
    ensures
        match r {
            Ok(generator) => include_dir_exists && generator.return_values@
                == spec_default_values() && spec_group_views(generator.header_files@)
                == spec_enabled_header_groups(caps),
            Err(e) => !include_dir_exists && e@ == BuildErrorView::HeadersNotFound(include_dir@),
        },
{
    if !include_dir_exists {
        return Err(BuildError::HeadersNotFound(include_dir.to_owned()));
    }
    Ok(StubGenerator::new(caps))
}

/// The files to build under `caps`: one source, object and archive per
/// enabled group, in processing order.
pub fn generate_stub_libraries(caps: Capabilities) -> (r: Vec<StubArtifact>)
    ensures
        spec_artifact_views(r@) == spec_artifacts(caps),
{
    let ids = enabled_groups(caps);
    let mut r: Vec<StubArtifact> = Vec::new();
    let mut i: usize = 0;
    while i < ids.len()
        invariant
            i <= ids.len(),
            ids@ == spec_enabled_groups(caps),
            r.len() == i,
            forall|k: int| 0 <= k < i ==> r@[k]@ == spec_artifact(ids@[k]),
        decreases ids.len() - i,
    {
        let id: GroupId = ids[i];
        r.push(id.artifact());
        i = i + 1;
    }
    proof {
        assert(spec_artifact_views(r@) =~= spec_artifacts(caps));
    }
    r
}

/// The mathematical value of a [`GroupPlan`].
pub struct GroupPlanView {
    pub group: HeaderGroupView,
    pub artifact: ArtifactView,
    pub validate: bool,
}

/// What is to be done for one header group: which headers to resolve, which
/// files to produce, and whether to validate the archive.
#[derive(Debug, Clone)]
pub struct GroupPlan {
    pub group: HeaderGroup,
    pub artifact: StubArtifact,
    pub validate: bool,
}

impl View for GroupPlan {
    type V = GroupPlanView;

    open spec fn view(&self) -> GroupPlanView {
        GroupPlanView { group: self.group@, artifact: self.artifact@, validate: self.validate }
    }
}

/// The values of the plans in `v`, in order.
pub open spec fn spec_plan_views(v: Seq<GroupPlan>) -> Seq<GroupPlanView> {
    Seq::new(v.len(), |i: int| v[i]@)
}

/// The plans of a build under `caps`: one for each enabled group, in
/// processing order, each with the group's headers and files; archives are
/// validated where the symbol-dump tool is available.
pub open spec fn spec_group_plans(caps: Capabilities, available: bool) -> Seq<GroupPlanView> {
    Seq::new(
        spec_enabled_groups(caps).len(),
        |i: int|
            GroupPlanView {
                group: spec_header_group(spec_enabled_groups(caps)[i]),
                artifact: spec_artifact(spec_enabled_groups(caps)[i]),
                validate: available,
            },
    )
}

/// The plans of a build under `caps`, one per enabled group, in the order
/// in which the groups are processed; `available` says whether the
/// symbol-dump tool is available.
pub fn group_plans(caps: Capabilities, available: bool) -> (r: Vec<GroupPlan>)
    ensures
        spec_plan_views(r@) == spec_group_plans(caps, available),
{
    let ids = enabled_groups(caps);
    let mut r: Vec<GroupPlan> = Vec::new();
    let mut i: usize = 0;
    while i < ids.len()
        invariant
            i <= ids.len(),
            ids@ == spec_enabled_groups(caps),
            r.len() == i,
            forall|k: int|
                0 <= k < i ==> r@[k]@ == (GroupPlanView {
                    group: spec_header_group(ids@[k]),
                    artifact: spec_artifact(ids@[k]),
                    validate: available,
                }),
        decreases ids.len() - i,
    {
        let id: GroupId = ids[i];
        r.push(GroupPlan { group: id.header_group(), artifact: id.artifact(), validate: available });
        i = i + 1;
    }
    proof {
        assert(spec_plan_views(r@) =~= spec_group_plans(caps, available));
    }
    r
}

/// The error for a source file that could not be written.
pub open spec fn spec_synthesis_error(source: Seq<char>, reason: Seq<char>) -> BuildErrorView {
    BuildErrorView::SynthesisError("Failed to write stub file "@ + source + ": "@ + reason)
}

/// Judges the attempt to write the synthesized source file `source`;
/// `failure` holds the reason where it could not be written.
pub fn source_written(source: &str, failure: Option<&str>) -> (r: Result<(), BuildError>)
    ensures
        match r {
            Ok(_) => failure is None,
            Err(e) => failure matches Some(reason) && e@ == spec_synthesis_error(
                source@,
                reason@,
            ),
        },
{
    match failure {
        None => Ok(()),
        Some(reason) => {
            let mut detail = "Failed to write stub file ".to_owned();
            detail.append(source);
            detail.append(": ");
            detail.append(reason);
            Err(BuildError::SynthesisError(detail))
        },
    }
}

/// The compiler run for `job`.
pub fn compile_invocation(job: &BuildJob) -> (r: ToolInvocation)
    ensures
        r@ == spec_compile_invocation(job@),
{
    let mut arguments: Vec<String> = Vec::new();
    arguments.push("-c".to_owned());
    arguments.push(job.source_path.clone());
    arguments.push("-o".to_owned());
    arguments.push(job.object_path.clone());
    arguments.push("-I".to_owned());
    arguments.push(job.include_dir.clone());
    arguments.push("-mcpu=cortex-m4".to_owned());
    arguments.push("-mthumb".to_owned());
    arguments.push("-mfloat-abi=hard".to_owned());
    arguments.push("-mfpu=fpv4-sp-d16".to_owned());
    arguments.push("-DTARGET_ARCH_cm4".to_owned());
    arguments.push("-DFLOAT_ABI_HARD".to_owned());
    arguments.push("-std=c99".to_owned());
    arguments.push("-MMD".to_owned());
    arguments.push("-MP".to_owned());
    arguments.push("-O2".to_owned());
    arguments.push("-g".to_owned());
    arguments.push("-fno-math-errno".to_owned());
    arguments.push("-ffunction-sections".to_owned());
    arguments.push("-fdata-sections".to_owned());
    arguments.push("-flto=auto".to_owned());
    arguments.push("-ffat-lto-objects".to_owned());
    arguments.push("-Werror".to_owned());
    proof {
        assert(spec_texts(arguments@) =~= spec_compile_invocation(job@).arguments);
    }
    ToolInvocation { program: "arm-none-eabi-gcc".to_owned(), arguments }
}

/// Judges the compiler run for `job` and, if it succeeded, hands out the
/// archiver run that follows it. After a failed compile there is no
/// archiver run.
pub fn archive_invocation(job: &BuildJob, compiled: &ToolOutcome) -> (r: Result<
    ToolInvocation,
    BuildError,
>)
    ensures
        match r {
            Ok(invocation) => spec_succeeded(compiled@) && invocation@ == spec_archive_invocation(
                job@,
            ),
            Err(e) => !spec_succeeded(compiled@) && e@ == BuildErrorView::CompilationError(
                spec_failure(job@.artifact.source, compiled@),
            ),
        },
{
    if !compiled.succeeded() {
        return Err(BuildError::CompilationError(compiled.failure(job.artifact.source.as_str())));
    }
    let mut arguments: Vec<String> = Vec::new();
    arguments.push("rcs".to_owned());
    arguments.push(job.archive_path.clone());
    arguments.push(job.object_path.clone());
    proof {
        assert(spec_texts(arguments@) =~= spec_archive_invocation(job@).arguments);
    }
    Ok(ToolInvocation { program: "arm-none-eabi-ar".to_owned(), arguments })
}

/// Judges the archiver run for `job`.
pub fn archive_result(job: &BuildJob, archived: &ToolOutcome) -> (r: Result<(), BuildError>)
    ensures
        match r {
            Ok(_) => spec_succeeded(archived@),
            Err(e) => !spec_succeeded(archived@) && e@ == BuildErrorView::ArchiveError(
                spec_failure(job@.artifact.archive, archived@),
            ),
        },
{
    if !archived.succeeded() {
        return Err(BuildError::ArchiveError(archived.failure(job.artifact.archive.as_str())));
    }
    Ok(())
}

/// The run that shows whether the symbol-dump tool can be started.
pub fn probe_invocation() -> (r: ToolInvocation)
    ensures
        r@ == spec_probe_invocation(),
{
    let arguments: Vec<String> = Vec::new();
    proof {
        assert(spec_texts(arguments@) =~= Seq::empty());
    }
    ToolInvocation { program: "arm-none-eabi-nm".to_owned(), arguments }
}

/// Whether `probed`, the outcome of the probe, shows that the symbol-dump
/// tool is available: it is if it could be started, whatever it then did.
pub fn validator_available(probed: &ToolOutcome) -> (r: bool)
    ensures
        r == (probed@ is Exited),
{
    match probed {
        ToolOutcome::Exited { .. } => true,
        ToolOutcome::NotStarted { .. } => false,
    }
}

/// The archives to validate under `caps`, by name and in processing order:
/// none where the symbol-dump tool is not available.
pub fn validate_stub_libraries(caps: Capabilities, available: bool) -> (r: Vec<String>)
    ensures
        spec_texts(r@) == spec_archives_to_validate(caps, available),
{
    let mut r: Vec<String> = Vec::new();
    if available {
        let artifacts = generate_stub_libraries(caps);
        let mut i: usize = 0;
        while i < artifacts.len()
            invariant
                i <= artifacts.len(),
                spec_artifact_views(artifacts@) == spec_artifacts(caps),
                r.len() == i,
                forall|k: int| 0 <= k < i ==> r@[k]@ == spec_artifacts(caps)[k].archive,
            decreases artifacts.len() - i,
        {
            proof {
                assert(spec_artifact_views(artifacts@)[i as int] == artifacts@[i as int]@);
            }
            r.push(artifacts[i].archive.clone());
            i = i + 1;
        }
    }
    proof {
        assert(spec_texts(r@) =~= spec_archives_to_validate(caps, available));
    }
    r
}

/// The symbol-dump run that reads the archive at `archive_path`.
pub fn validate_invocation(archive_path: &str) -> (r: ToolInvocation)
    ensures
        r@ == spec_validate_invocation(archive_path@),
{
    let mut arguments: Vec<String> = Vec::new();
    arguments.push(archive_path.to_owned());
    proof {
        assert(spec_texts(arguments@) =~= seq![archive_path@]);
    }
    ToolInvocation { program: "arm-none-eabi-nm".to_owned(), arguments }
}

/// Judges the symbol-dump run on the archive at `archive_path`: the archive
/// is valid if the tool could read it.
pub fn validate_stub_library(archive_path: &str, dumped: &ToolOutcome) -> (r: Result<
    (),
    BuildError,
>)
    ensures
        match r {
            Ok(_) => spec_succeeded(dumped@),
            Err(e) => !spec_succeeded(dumped@) && e@ == BuildErrorView::ValidationError(
                spec_failure(archive_path@, dumped@),
            ),
        },
{
    if !dumped.succeeded() {
        return Err(BuildError::ValidationError(dumped.failure(archive_path)));
    }
    Ok(())
}

} // verus!
