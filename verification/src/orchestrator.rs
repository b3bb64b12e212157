//! The build of the stub, as a sequence of steps that the caller performs.
//!
//! The orchestrator decides; the caller acts. After every step the caller
//! reports how it went and is told the next one. Whatever is reported, the
//! working directory is removed before the run finishes, and the artifact
//! is copied only after a build that succeeded.

use vstd::prelude::*;

verus! {

/// The working directory of a build. It exists only while the build runs.
pub const WORK_DIR: &'static str = "stub_project";

/// The directory of the program text, inside the working directory.
pub const SOURCE_DIR: &'static str = "stub_project/src";

/// The file of the program text.
pub const SOURCE_FILE: &'static str = "stub_project/src/main.rs";

/// The file of the build manifest.
pub const MANIFEST_FILE: &'static str = "stub_project/Cargo.toml";

/// Where the toolchain leaves the artifact of an optimized build.
pub const ARTIFACT_FILE: &'static str = "stub_project/target/release/polymorphic_stub.exe";

/// The program that builds the stub.
pub const TOOLCHAIN: &'static str = "cargo";

/// The first argument to the toolchain: what it is to do.
pub const BUILD_VERB: &'static str = "build";

/// The second argument to the toolchain: that the build is optimized.
pub const RELEASE_FLAG: &'static str = "--release";

/// What the orchestrator is waiting for.
#[derive(Clone, Copy, PartialEq, Eq, Debug, Structural)]
pub enum BuildPhase {
    /// The working directory is being created.
    Creating,
    /// The program text is being written.
    WritingSource,
    /// The build manifest is being written.
    WritingManifest,
    /// The toolchain is running.
    Compiling,
    /// The artifact is being copied to the output path.
    Copying,
    /// The working directory is being removed.
    Cleaning,
    /// Nothing is left to do.
    Finished,
}

/// One step for the caller to perform.
#[derive(Clone, Copy, PartialEq, Eq, Debug, Structural)]
pub enum BuildAction {
    /// Create the working directory with its source directory.
    CreateWorkDir,
    /// Write the program text to the source file.
    WriteSource,
    /// Write the build manifest.
    WriteManifest,
    /// Run the toolchain in the working directory, for an optimized build.
    RunToolchain,
    /// Copy the built artifact to the output path.
    CopyArtifact,
    /// Remove the working directory with all that it holds.
    RemoveWorkDir,
    /// Stop: the outcome is final.
    Finish,
}

/// How a step went.
pub enum StepReport {
    /// The step was carried out.
    Done,
    /// The step failed; the text says why. For the toolchain it is what the
    /// toolchain printed as its diagnosis.
    Failed(String),
}

impl StepReport {
    /// The reason of a failed step, and nothing for a step that was carried
    /// out.
    pub open spec fn reason(&self) -> Option<Seq<char>> {
        match self {
            StepReport::Done => None,
            StepReport::Failed(text) => Some(text@),
        }
    }
}

/// The step that is performed in `phase`.
pub open spec fn action_of(phase: BuildPhase) -> BuildAction {
    match phase {
        BuildPhase::Creating => BuildAction::CreateWorkDir,
        BuildPhase::WritingSource => BuildAction::WriteSource,
        BuildPhase::WritingManifest => BuildAction::WriteManifest,
        BuildPhase::Compiling => BuildAction::RunToolchain,
        BuildPhase::Copying => BuildAction::CopyArtifact,
        BuildPhase::Cleaning => BuildAction::RemoveWorkDir,
        BuildPhase::Finished => BuildAction::Finish,
    }
}

/// The path that `action` works on: the directory to create, the file to
/// write, the directory in which the toolchain runs, the file to copy
/// from, the directory to remove. The last step works on none.
pub open spec fn path_of(action: BuildAction) -> Option<Seq<char>> {
    match action {
        BuildAction::CreateWorkDir => Some(SOURCE_DIR@),
        BuildAction::WriteSource => Some(SOURCE_FILE@),
        BuildAction::WriteManifest => Some(MANIFEST_FILE@),
        BuildAction::RunToolchain => Some(WORK_DIR@),
        BuildAction::CopyArtifact => Some(ARTIFACT_FILE@),
        BuildAction::RemoveWorkDir => Some(WORK_DIR@),
        BuildAction::Finish => None,
    }
}

/// The phase that follows `phase` when its step went well (`ok`) or not.
/// A failure anywhere leads straight to the cleanup.
pub open spec fn phase_after(phase: BuildPhase, ok: bool) -> BuildPhase {
    match phase {
        BuildPhase::Creating => if ok { BuildPhase::WritingSource } else { BuildPhase::Cleaning },
        BuildPhase::WritingSource => if ok { BuildPhase::WritingManifest } else { BuildPhase::Cleaning },
        BuildPhase::WritingManifest => if ok { BuildPhase::Compiling } else { BuildPhase::Cleaning },
        BuildPhase::Compiling => if ok { BuildPhase::Copying } else { BuildPhase::Cleaning },
        BuildPhase::Copying => BuildPhase::Cleaning,
        BuildPhase::Cleaning => BuildPhase::Finished,
        BuildPhase::Finished => BuildPhase::Finished,
    }
}

/// The failure on record after a report: the first reason that was reported
/// before the run finished.
pub open spec fn failure_after(
    phase: BuildPhase,
    failure: Option<Seq<char>>,
    reason: Option<Seq<char>>,
) -> Option<Seq<char>> {
    if phase is Finished || failure is Some {
        failure
    } else {
        reason
    }
}

/// The phase after the first `n` of `reports`, in a run that starts with
/// the creation of the working directory. A report is the reason of a
/// step that failed, and nothing for a step that was carried out.
pub open spec fn phase_at(reports: Seq<Option<Seq<char>>>, n: nat) -> BuildPhase
    decreases n,
{
    if n == 0 {
        BuildPhase::Creating
    } else {
        phase_after(phase_at(reports, (n - 1) as nat), reports[n - 1] is None)
    }
}

/// The failure on record after the first `n` of `reports`.
pub open spec fn failure_at(reports: Seq<Option<Seq<char>>>, n: nat) -> Option<Seq<char>>
    decreases n,
{
    if n == 0 {
        None
    } else {
        failure_after(
            phase_at(reports, (n - 1) as nat),
            failure_at(reports, (n - 1) as nat),
            reports[n - 1],
        )
    }
}

/// One build of the stub.
pub struct BuildRun {
    pub phase: BuildPhase,
    pub failure: Option<String>,
}

impl BuildRun {
    /// The failure on record, as text.
    pub open spec fn failure_view(&self) -> Option<Seq<char>> {
        match self.failure {
            None => None,
            Some(text) => Some(text@),
        }
    }

    /// The run is over and no step failed.
    pub open spec fn succeeded(&self) -> bool {
        self.phase is Finished && self.failure is None
    }

    /// Starts a run. The first step is to create the working directory.
    pub fn begin() -> (started: (BuildRun, BuildAction))
        ensures
            started.0.phase == BuildPhase::Creating,
            started.0.failure is None,
            started.1 == BuildAction::CreateWorkDir,
    {
        (BuildRun { phase: BuildPhase::Creating, failure: None }, BuildAction::CreateWorkDir)
    }

    /// Takes the report on the step that was handed out last and hands out
    /// the next one. The first failure that is reported is kept as the
    /// failure of the run.
    pub fn advance(&mut self, report: StepReport) -> (action: BuildAction)
        ensures
            final(self).phase == phase_after(old(self).phase, report is Done),
            final(self).failure_view() == failure_after(
                old(self).phase,
                old(self).failure_view(),
                report.reason(),
            ),
            action == action_of(final(self).phase),
    {
        let ok = match report {
            StepReport::Done => true,
            StepReport::Failed(text) => {
                if self.phase != BuildPhase::Finished && self.failure.is_none() {
                    self.failure = Some(text);
                }
                false
            },
        };
        let next = match self.phase {
            BuildPhase::Creating => if ok { BuildPhase::WritingSource } else { BuildPhase::Cleaning },
            BuildPhase::WritingSource => if ok { BuildPhase::WritingManifest } else { BuildPhase::Cleaning },
            BuildPhase::WritingManifest => if ok { BuildPhase::Compiling } else { BuildPhase::Cleaning },
            BuildPhase::Compiling => if ok { BuildPhase::Copying } else { BuildPhase::Cleaning },
            BuildPhase::Copying => BuildPhase::Cleaning,
            BuildPhase::Cleaning => BuildPhase::Finished,
            BuildPhase::Finished => BuildPhase::Finished,
        };
        self.phase = next;
        step_for(next)
    }

    /// Whether the run is over.
    pub fn is_finished(&self) -> (over: bool)
        ensures
            over == (self.phase is Finished),
    {
        self.phase == BuildPhase::Finished
    }

    /// The outcome of a run that is over: nothing while it is still under
    /// way, then `Ok` when no step failed, else the first reason reported.
    pub fn outcome(&self) -> (outcome: Option<Result<(), String>>)
        ensures
            outcome is Some <==> self.phase is Finished,
            outcome matches Some(Ok(_)) <==> self.succeeded(),
            outcome matches Some(Err(text)) ==> self.failure_view() == Some(text@),
    {
        if self.phase == BuildPhase::Finished {
            match &self.failure {
                None => Some(Ok(())),
                Some(text) => Some(Err(text.clone())),
            }
        } else {
            None
        }
    }
}

/// The step that is performed in `phase`.
pub fn step_for(phase: BuildPhase) -> (action: BuildAction)
    ensures
        action == action_of(phase),
{
    match phase {
        BuildPhase::Creating => BuildAction::CreateWorkDir,
        BuildPhase::WritingSource => BuildAction::WriteSource,
        BuildPhase::WritingManifest => BuildAction::WriteManifest,
        BuildPhase::Compiling => BuildAction::RunToolchain,
        BuildPhase::Copying => BuildAction::CopyArtifact,
        BuildPhase::Cleaning => BuildAction::RemoveWorkDir,
        BuildPhase::Finished => BuildAction::Finish,
    }
}

/// The path that `action` works on.
pub fn action_path(action: BuildAction) -> (path: Option<&'static str>)
    ensures
        match path {
            Some(text) => path_of(action) == Some(text@),
            None => path_of(action) is None,
        },
{
    match action {
        BuildAction::CreateWorkDir => Some(SOURCE_DIR),
        BuildAction::WriteSource => Some(SOURCE_FILE),
        BuildAction::WriteManifest => Some(MANIFEST_FILE),
        BuildAction::RunToolchain => Some(WORK_DIR),
        BuildAction::CopyArtifact => Some(ARTIFACT_FILE),
        BuildAction::RemoveWorkDir => Some(WORK_DIR),
        BuildAction::Finish => None,
    }
}

/// Every path that a step works on is the working directory or lies in
/// it: a build leaves nothing outside of what its cleanup removes.
pub proof fn lemma_paths_in_work_dir(action: BuildAction)
    requires
        !(action is Finish),
    ensures
        path_of(action) matches Some(path) && {
            &&& path.len() >= WORK_DIR@.len()
            &&& path.subrange(0, WORK_DIR@.len() as int) == WORK_DIR@
            &&& path.len() > WORK_DIR@.len() ==> path[WORK_DIR@.len() as int] == '/'
        },
{
    reveal_strlit("stub_project");
    reveal_strlit("stub_project/src");
    reveal_strlit("stub_project/src/main.rs");
    reveal_strlit("stub_project/Cargo.toml");
    reveal_strlit("stub_project/target/release/polymorphic_stub.exe");
}

/// The run is over after seven reports at the latest, whatever they say.
pub proof fn lemma_run_finishes(reports: Seq<Option<Seq<char>>>, n: nat)
    requires
        n >= 7,
    ensures
        phase_at(reports, n) is Finished,
    decreases n,
{
    reveal_with_fuel(phase_at, 8);
    if n > 7 {
        lemma_run_finishes(reports, (n - 1) as nat);
    }
}

/// No run finishes without its cleanup: when the phase after `n` reports is
/// `Finished`, the working directory was being removed at some earlier
/// point of the run.
pub proof fn lemma_cleanup_before_finish(reports: Seq<Option<Seq<char>>>, n: nat)
    requires
        phase_at(reports, n) is Finished,
    ensures
        exists|k: nat| k < n && #[trigger] phase_at(reports, k) is Cleaning,
    decreases n,
{
    if n > 0 && phase_at(reports, (n - 1) as nat) is Finished {
        lemma_cleanup_before_finish(reports, (n - 1) as nat);
    }
}

/// After a step that failed, the artifact is never copied: when the report
/// at `failed` gives a reason, and that step came before the copy, every
/// later phase of the run is the cleanup or the end. The output path is
/// then left as it was.
pub proof fn lemma_failure_prevents_copy(reports: Seq<Option<Seq<char>>>, failed: nat, n: nat)
    requires
        failed < n,
        reports[failed as int] is Some,
        !(phase_at(reports, failed) is Copying),
        !(phase_at(reports, failed) is Cleaning),
        !(phase_at(reports, failed) is Finished),
    ensures
        !(phase_at(reports, n) is Copying),
        phase_at(reports, n) is Cleaning || phase_at(reports, n) is Finished,
    decreases n,
{
    if n > failed + 1 {
        lemma_failure_prevents_copy(reports, failed, (n - 1) as nat);
    }
}

/// The copy follows a build that succeeded: when the phase after `n`
/// reports is `Copying`, it was `Compiling` just before, and the toolchain
/// was reported to have done its work.
pub proof fn lemma_copy_follows_build(reports: Seq<Option<Seq<char>>>, n: nat)
    requires
        phase_at(reports, n) is Copying,
    ensures
        n > 0,
        phase_at(reports, (n - 1) as nat) is Compiling,
        reports[n - 1] is None,
{
}

/// The failure of a run is the first that was reported: when the report
/// at `failed` gives a reason before the run is finished, and no report
/// before it gives one, that reason is on record from then on. So what
/// the toolchain printed about a build that failed is what the run
/// reports.
pub proof fn lemma_first_failure_is_kept(reports: Seq<Option<Seq<char>>>, failed: nat, n: nat)
    requires
        failed < n,
        reports[failed as int] is Some,
        forall|j: int| 0 <= j < failed ==> reports[j] is None,
        !(phase_at(reports, failed) is Finished),
    ensures
        failure_at(reports, n) == reports[failed as int],
    decreases n,
{
    if n > failed + 1 {
        lemma_first_failure_is_kept(reports, failed, (n - 1) as nat);
    } else {
        lemma_no_failure_on_record(reports, failed);
    }
}

/// While every step is carried out, no failure is on record.
pub proof fn lemma_no_failure_on_record(reports: Seq<Option<Seq<char>>>, n: nat)
    requires
        forall|j: int| 0 <= j < n ==> reports[j] is None,
    ensures
        failure_at(reports, n) is None,
    decreases n,
{
    if n > 0 {
        lemma_no_failure_on_record(reports, (n - 1) as nat);
    }
}

/// A run in which every step is carried out takes the steps in their
/// order and is finished after the sixth.
pub proof fn lemma_clean_run(reports: Seq<Option<Seq<char>>>)
    requires
        forall|j: int| 0 <= j < 6 ==> reports[j] is None,
    ensures
        phase_at(reports, 0) is Creating,
        phase_at(reports, 1) is WritingSource,
        phase_at(reports, 2) is WritingManifest,
        phase_at(reports, 3) is Compiling,
        phase_at(reports, 4) is Copying,
        phase_at(reports, 5) is Cleaning,
        phase_at(reports, 6) is Finished,
        failure_at(reports, 6) is None,
{
    reveal_with_fuel(phase_at, 7);
    lemma_no_failure_on_record(reports, 6);
}

} // verus!
