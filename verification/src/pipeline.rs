//! The orchestration of one run: which tasks to perform, in the caller's
//! order, and how a failure cuts the rest of the sequence off.
//!
//! The pipeline itself performs no I/O.  It hands the caller the next task
//! to attempt and consumes the outcome; once an outcome is a failure, the
//! run is aborted and no further task is ever offered.

use vstd::prelude::*;

use crate::config::LambdaSpec;
use crate::docker::DockerCommand;
use crate::error::KnownFailures;

verus! {

/// The vocabulary of requestable tasks.
#[derive(Clone, Copy, PartialEq, Eq, Structural, Debug)]
pub enum Task {
    /// Package the compiled artifacts into deployment archives.
    Package,
    /// Compile inside the isolated environment.
    Build,
    /// A defined no-op, kept in the vocabulary for the command-line surface;
    /// performing it does nothing and never fails.
    Lambda,
}

/// Builds the isolated build invocation for a resolved specification: the
/// specification's build command, the requested toolchain version, and the
/// caller's working directory.
pub fn create_docker_command(spec_source: &LambdaSpec, rust_version: &str, current_dir: &str) -> (r:
    DockerCommand)
    requires
        spec_source.build_command is Some,
    ensures
        spec_source.build_command matches Option::Some(c) && r@.command == c@,
        r@.rust_version == rust_version@,
        r@.current_dir == current_dir@,
{
    let command = match &spec_source.build_command {
        Option::Some(c) => c.clone(),
        Option::None => String::new(),
    };
    DockerCommand::new(command, Option::Some(rust_version.to_owned()), current_dir.to_owned())
}

/// One artifact to package: where its compiled binary lies, and where its
/// archive goes.  Created, consumed, discarded — no retained state.
pub struct PackagingRequest {
    pub source_binary_path: String,
    pub destination_archive_path: String,
}

/// Where the compiled binary of a named artifact lies below the toolchain's
/// output directory.
pub open spec fn spec_source_binary_path(output_dir: Seq<char>, artifact_name: Seq<char>) -> Seq<
    char,
> {
    output_dir + "/"@ + artifact_name
}

/// Where the archive of a named artifact goes below the output package
/// directory.
pub open spec fn spec_destination_archive_path(
    package_dir: Seq<char>,
    artifact_name: Seq<char>,
) -> Seq<char> {
    package_dir + "/"@ + artifact_name + "-lambda.zip"@
}

/// The packaging request for one named artifact.
pub fn create_package_request(
    output_package_path: &str,
    docker_output_path: &str,
    artifact_name: &str,
) -> (r: PackagingRequest)
    ensures
        r.source_binary_path@ == spec_source_binary_path(docker_output_path@, artifact_name@),
        r.destination_archive_path@ == spec_destination_archive_path(
            output_package_path@,
            artifact_name@,
        ),
{
    let source = docker_output_path.to_owned().concat("/").concat(artifact_name);
    let destination = output_package_path.to_owned().concat("/").concat(artifact_name).concat(
        "-lambda.zip",
    );
    PackagingRequest { source_binary_path: source, destination_archive_path: destination }
}

/// The packaging requests of one Package task, in packaging order: the
/// primary artifact first, then every extra artifact in declaration order —
/// duplicates kept, so a name declared twice is packaged twice.
pub fn package_requests(spec_source: &LambdaSpec, docker_output_path: &str) -> (r: Vec<
    PackagingRequest,
>)
    requires
        spec_source.artifact_name is Some,
        spec_source.output_package_path is Some,
    ensures
        r@.len() == 1 + spec_source.extra_artifacts@.len(),
        spec_source.artifact_name matches Option::Some(primary)
            && spec_source.output_package_path matches Option::Some(package_dir) && {
            &&& r@[0].source_binary_path@ == spec_source_binary_path(
                docker_output_path@,
                primary@,
            )
            &&& r@[0].destination_archive_path@ == spec_destination_archive_path(
                package_dir@,
                primary@,
            )
            &&& forall|k: int|
                0 <= k < spec_source.extra_artifacts@.len() ==> {
                    &&& (#[trigger] r@[k + 1]).source_binary_path@ == spec_source_binary_path(
                        docker_output_path@,
                        spec_source.extra_artifacts@[k]@,
                    )
                    &&& r@[k + 1].destination_archive_path@ == spec_destination_archive_path(
                        package_dir@,
                        spec_source.extra_artifacts@[k]@,
                    )
                }
        },
{
    let primary = match &spec_source.artifact_name {
        Option::Some(n) => n.as_str(),
        Option::None => "",
    };
    let package_dir = match &spec_source.output_package_path {
        Option::Some(p) => p.as_str(),
        Option::None => "",
    };
    let mut requests: Vec<PackagingRequest> = Vec::new();
    requests.push(create_package_request(package_dir, docker_output_path, primary));
    let mut k: usize = 0;
    while k < spec_source.extra_artifacts.len()
        invariant
            k <= spec_source.extra_artifacts@.len(),
            requests@.len() == 1 + k,
            spec_source.artifact_name matches Option::Some(p) && primary@ == p@,
            spec_source.output_package_path matches Option::Some(d) && package_dir@ == d@,
            requests@[0].source_binary_path@ == spec_source_binary_path(
                docker_output_path@,
                primary@,
            ),
            requests@[0].destination_archive_path@ == spec_destination_archive_path(
                package_dir@,
                primary@,
            ),
            forall|t: int|
                0 <= t < k ==> {
                    &&& (#[trigger] requests@[t + 1]).source_binary_path@
                        == spec_source_binary_path(
                        docker_output_path@,
                        spec_source.extra_artifacts@[t]@,
                    )
                    &&& requests@[t + 1].destination_archive_path@
                        == spec_destination_archive_path(
                        package_dir@,
                        spec_source.extra_artifacts@[t]@,
                    )
                },
        decreases spec_source.extra_artifacts@.len() - k,
    {
        let name = spec_source.extra_artifacts[k].as_str();
        requests.push(create_package_request(package_dir, docker_output_path, name));
        k += 1;
    }
    requests
}

/// The progress of one run through its requested task sequence.
pub struct Orchestrator {
    tasks: Vec<Task>,
    position: usize,
    aborted: bool,
    failure: Option<KnownFailures>,
}

/// The mathematical content of an [`Orchestrator`].
pub struct OrchestratorView {
    pub tasks: Seq<Task>,
    pub position: int,
    pub aborted: bool,
    pub failure: Option<KnownFailures>,
}

impl View for Orchestrator {
    type V = OrchestratorView;

    closed spec fn view(&self) -> OrchestratorView {
        OrchestratorView {
            tasks: self.tasks@,
            position: self.position as int,
            aborted: self.aborted,
            failure: self.failure,
        }
    }
}

/// The task an orchestrator offers next: the one at its position, unless
/// the run is aborted or the sequence is exhausted.
pub open spec fn spec_current(o: OrchestratorView) -> Option<Task> {
    if !o.aborted && 0 <= o.position < o.tasks.len() {
        Option::Some(o.tasks[o.position])
    } else {
        Option::None
    }
}

/// How a successful outcome moves an orchestrator on: to the next task.
pub open spec fn spec_step_ok(o: OrchestratorView) -> OrchestratorView {
    OrchestratorView { position: o.position + 1, ..o }
}

/// How a failed outcome moves an orchestrator on: into the aborted state,
/// remembering the failure.
pub open spec fn spec_step_err(o: OrchestratorView, e: KnownFailures) -> OrchestratorView {
    OrchestratorView { aborted: true, failure: Option::Some(e), ..o }
}

impl Orchestrator {
    /// A fresh run over the caller's task sequence, exactly as given:
    /// nothing is deduplicated or reordered.
    pub fn new(tasks: Vec<Task>) -> (r: Orchestrator)
        ensures
            r@.tasks == tasks@,
            r@.position == 0,
            !r@.aborted,
            r@.failure is None,
    {
        Orchestrator { tasks, position: 0, aborted: false, failure: Option::None }
    }

    /// The next task to attempt, or nothing when the run is over.
    pub fn current_task(&self) -> (r: Option<Task>)
        ensures
            r == spec_current(self@),
    {
        if !self.aborted && self.position < self.tasks.len() {
            Option::Some(self.tasks[self.position])
        } else {
            Option::None
        }
    }

    /// Whether some task has failed and ended the run early.
    pub fn is_aborted(&self) -> (r: bool)
        ensures
            r == self@.aborted,
    {
        self.aborted
    }

    /// Records the outcome of the current task: success moves on to the
    /// next task, failure aborts the rest of the sequence.
    pub fn advance(&mut self, outcome: Result<(), KnownFailures>)
        requires
            spec_current(old(self)@) is Some,
        ensures
            outcome matches Ok(()) ==> final(self)@ == spec_step_ok(old(self)@),
            outcome matches Err(e) ==> final(self)@ == spec_step_err(old(self)@, e),
    {
        let n = self.tasks.len();
        assert(self.position < n);
        match outcome {
            Ok(()) => {
                self.position = self.position + 1;
            },
            Err(e) => {
                self.aborted = true;
                self.failure = Option::Some(e);
            },
        }
    }

    /// Surrenders the failure that aborted the run, if any.
    pub fn into_failure(self) -> (r: Option<KnownFailures>)
        ensures
            r == self@.failure,
    {
        self.failure
    }
}

/// Abort on failure: the instant a task's outcome is a failure, the
/// orchestrator holds that failure and offers no further task, so the
/// remaining sequence is never attempted.
pub proof fn lemma_abort_on_failure(o: OrchestratorView, e: KnownFailures)
    ensures
        spec_current(spec_step_err(o, e)) is None,
        spec_step_err(o, e).failure == Option::Some(e),
        spec_step_err(o, e).aborted,
{
}

/// Abort on a failed build: an isolated invocation that exits non-zero is
/// classified as `FailedToCompile`, and recording that outcome leaves the
/// orchestrator offering no further task — whatever tasks were still
/// requested, a following Package among them, are never attempted, and the
/// reported failure is `FailedToCompile`.
pub proof fn lemma_abort_on_failed_build(o: OrchestratorView)
    ensures
        crate::docker::spec_classify(false) == Result::<(), KnownFailures>::Err(
            KnownFailures::FailedToCompile,
        ),
        spec_current(spec_step_err(o, KnownFailures::FailedToCompile)) is None,
        spec_step_err(o, KnownFailures::FailedToCompile).failure == Option::Some(
            KnownFailures::FailedToCompile,
        ),
{
}

/// Success keeps the order: a successful outcome moves exactly one task
/// onward and leaves the requested sequence untouched.
pub proof fn lemma_success_preserves_sequence(o: OrchestratorView)
    ensures
        spec_step_ok(o).tasks == o.tasks,
        spec_step_ok(o).position == o.position + 1,
        spec_step_ok(o).aborted == o.aborted,
{
}

} // verus!
