//! The packing job: the stages of one run and the event that each of them
//! announces.
//!
//! The worker that runs a job owns no file, no channel and no toolchain.
//! It calls `advance`, passes the event on, does what the step asks for,
//! and calls `advance` again with what came of it. The job does the rest:
//! it classifies, compresses, draws the key material and encrypts, always
//! in this order, and it ends every run with exactly one event at 100.

use crate::error::PackError;
use crate::event::{failure_event, failure_text, ProgressEvent, COMPLETE};
use crate::format::{
    classify, has_elf_magic, has_pe_magic, parsed_kind, verdict_of, FormatVerdict,
};
use crate::keys::{generate_dynamic_key_iv, KeyMaterial};
use crate::stub::{stub_source, synthesize, StubSource, STUB_MANIFEST};
use crate::transform::{
    compress_data, encrypt_data, recovered, transformed, zlib_compressed, zlib_expanded,
};
use vstd::prelude::*;
use vstd::string::StringExecFns;

verus! {

/// Where a job stands.
#[derive(Clone, Copy, PartialEq, Eq, Debug, Structural)]
pub enum JobStage {
    /// Nothing has happened yet.
    Idle,
    /// The payload is being read.
    Reading,
    /// The format of the payload is being told.
    Classifying,
    /// The payload is being compressed.
    Compressing,
    /// The key material is being drawn.
    KeyGen,
    /// The compressed payload is being encrypted.
    Encrypting,
    /// The stub is being built.
    Building,
    /// The run ended well.
    Done,
    /// The run ended because the payload is in no format that is packed.
    Unsupported,
    /// The run ended because something failed.
    Failed,
}

/// The stage of a job together with what the job holds in it beyond its
/// payload.
pub enum Progress {
    /// Nothing has happened yet.
    Idle,
    /// The payload is being read.
    Reading,
    /// The format of the payload is being told.
    Classifying,
    /// The payload is being compressed.
    Compressing,
    /// The key material is being drawn; the compressed payload waits.
    KeyGen { compressed: Vec<u8> },
    /// The compressed payload is being encrypted with the key material.
    Encrypting { compressed: Vec<u8>, keys: KeyMaterial },
    /// The stub is being built from the encrypted payload and the key
    /// material.
    Building { encrypted: Vec<u8>, keys: KeyMaterial },
    /// The run ended well.
    Done,
    /// The run ended because the payload is in no format that is packed.
    Unsupported,
    /// The run ended because something failed.
    Failed,
}

/// What the worker hands to a job.
pub enum WorkerInput {
    /// Go on. Where the last step asked for a build, the build went well.
    Proceed,
    /// The payload, as it was read from the input path.
    Payload(Vec<u8>),
    /// What the last step asked for could not be done; the text says why.
    Failed(String),
}

/// What the worker does before it calls `advance` again.
#[derive(Clone, Copy, PartialEq, Eq, Debug, Structural)]
pub enum Request {
    /// Read the input path and hand in the payload, or the failure.
    ReadInput,
    /// Nothing: call again with `Proceed`.
    Continue,
    /// Build the stub and copy it to the output path; hand in `Proceed`,
    /// or the failure.
    Build,
    /// Nothing: the run is over.
    Stop,
}

/// One step of a job: the event to pass on, and what to do next.
#[derive(Debug)]
pub struct Step {
    pub event: ProgressEvent,
    pub request: Request,
}

/// A run ends in these stages.
pub open spec fn is_terminal(stage: JobStage) -> bool {
    stage is Done || stage is Unsupported || stage is Failed
}

/// The percent of the event that announces `stage`.
pub open spec fn percent_of(stage: JobStage) -> u16 {
    match stage {
        JobStage::Idle => 0,
        JobStage::Reading => 10,
        JobStage::Classifying => 15,
        JobStage::Compressing => 20,
        JobStage::KeyGen => 30,
        JobStage::Encrypting => 40,
        JobStage::Building => 50,
        JobStage::Done => COMPLETE,
        JobStage::Unsupported => COMPLETE,
        JobStage::Failed => COMPLETE,
    }
}

/// What the worker is asked to do when a job enters `stage`.
pub open spec fn request_of(stage: JobStage) -> Request {
    match stage {
        JobStage::Reading => Request::ReadInput,
        JobStage::Building => Request::Build,
        JobStage::Done => Request::Stop,
        JobStage::Unsupported => Request::Stop,
        JobStage::Failed => Request::Stop,
        _ => Request::Continue,
    }
}

/// `to` can come directly after `from`.
pub open spec fn follows(from: JobStage, to: JobStage) -> bool {
    match from {
        JobStage::Idle => to is Reading,
        JobStage::Reading => to is Classifying || to is Failed,
        JobStage::Classifying => to is Compressing || to is Unsupported,
        JobStage::Compressing => to is KeyGen || to is Failed,
        JobStage::KeyGen => to is Encrypting || to is Failed,
        JobStage::Encrypting => to is Building,
        JobStage::Building => to is Done || to is Failed,
        _ => false,
    }
}

/// A job in `stage` takes `input`.
pub open spec fn accepts(stage: JobStage, input: WorkerInput) -> bool {
    match stage {
        JobStage::Idle => input is Proceed,
        JobStage::Reading => input is Payload || input is Failed,
        JobStage::Classifying => input is Proceed,
        JobStage::Compressing => input is Proceed,
        JobStage::KeyGen => input is Proceed,
        JobStage::Encrypting => input is Proceed,
        JobStage::Building => input is Proceed || input is Failed,
        _ => false,
    }
}

/// The message of the event with which a job goes from `from` to `to`
/// on `input`. A failure that the worker hands in is reported in its own
/// words.
pub open spec fn message_for(
    from: JobStage,
    to: JobStage,
    input: WorkerInput,
    input_path: Seq<char>,
) -> Seq<char> {
    match to {
        JobStage::Idle => Seq::empty(),
        JobStage::Reading => "Reading file: "@ + input_path,
        JobStage::Classifying => "Checking executable format..."@,
        JobStage::Compressing => "Compressing payload..."@,
        JobStage::KeyGen => "Generating encryption keys..."@,
        JobStage::Encrypting => "Encrypting payload..."@,
        JobStage::Building => "Building stub executable..."@,
        JobStage::Done => "✨ Packing completed successfully!"@,
        JobStage::Unsupported => "❌ Unsupported executable format"@,
        JobStage::Failed => failure_text(
            match input {
                WorkerInput::Failed(reason) => reason@,
                _ => if from is Compressing {
                    PackError::Compression.text()
                } else {
                    PackError::Entropy.text()
                },
            },
        ),
    }
}

/// One run: the paths, the payload once it is read, and the stage with
/// what it holds.
pub struct PackingJob {
    pub input_path: String,
    pub output_path: String,
    pub payload: Vec<u8>,
    pub progress: Progress,
}

impl PackingJob {
    /// The stage of the job.
    pub open spec fn stage(&self) -> JobStage {
        match self.progress {
            Progress::Idle => JobStage::Idle,
            Progress::Reading => JobStage::Reading,
            Progress::Classifying => JobStage::Classifying,
            Progress::Compressing => JobStage::Compressing,
            Progress::KeyGen { .. } => JobStage::KeyGen,
            Progress::Encrypting { .. } => JobStage::Encrypting,
            Progress::Building { .. } => JobStage::Building,
            Progress::Done => JobStage::Done,
            Progress::Unsupported => JobStage::Unsupported,
            Progress::Failed => JobStage::Failed,
        }
    }

    /// What the job holds is what the stages before made of the payload:
    /// only a payload of a known format is compressed; what is encrypted
    /// is the compressed payload; and what is built into the stub leads
    /// back to the payload.
    pub open spec fn wf(&self) -> bool {
        match self.progress {
            Progress::Compressing => verdict_of(parsed_kind(self.payload@)) is KnownExecutable,
            Progress::KeyGen { compressed } => {
                &&& verdict_of(parsed_kind(self.payload@)) is KnownExecutable
                &&& zlib_compressed(self.payload@) == Some(compressed@)
                &&& zlib_expanded(compressed@) == Some(self.payload@)
            },
            Progress::Encrypting { compressed, keys } => {
                &&& verdict_of(parsed_kind(self.payload@)) is KnownExecutable
                &&& zlib_compressed(self.payload@) == Some(compressed@)
                &&& zlib_expanded(compressed@) == Some(self.payload@)
            },
            Progress::Building { encrypted, keys } => {
                &&& verdict_of(parsed_kind(self.payload@)) is KnownExecutable
                &&& transformed(keys.key@, keys.iv@, self.payload@) == Some(encrypted@)
                &&& recovered(keys.key@, keys.iv@, encrypted@) == Some(self.payload@)
            },
            _ => true,
        }
    }

    /// The key material of the run, from the stage in which it is drawn
    /// until the stub is built.
    pub open spec fn keys(&self) -> Option<KeyMaterial> {
        match self.progress {
            Progress::Encrypting { compressed, keys } => Some(keys),
            Progress::Building { encrypted, keys } => Some(keys),
            _ => None,
        }
    }

    /// The stage that follows on `input`, where the job and the input
    /// settle it. Whether key material can be drawn is for the system to
    /// say.
    pub open spec fn decided(&self, input: WorkerInput) -> Option<JobStage> {
        match self.progress {
            Progress::Idle => Some(JobStage::Reading),
            Progress::Reading => Some(
                if input is Payload {
                    JobStage::Classifying
                } else {
                    JobStage::Failed
                },
            ),
            Progress::Classifying => Some(
                if verdict_of(parsed_kind(self.payload@)) is KnownExecutable {
                    JobStage::Compressing
                } else {
                    JobStage::Unsupported
                },
            ),
            Progress::Compressing => Some(
                if zlib_compressed(self.payload@) is Some {
                    JobStage::KeyGen
                } else {
                    JobStage::Failed
                },
            ),
            Progress::Encrypting { .. } => Some(JobStage::Building),
            Progress::Building { .. } => Some(
                if input is Proceed {
                    JobStage::Done
                } else {
                    JobStage::Failed
                },
            ),
            _ => None,
        }
    }

    /// The payload after a step on `input`: it is taken in while reading
    /// and never changed afterwards.
    pub open spec fn payload_after(&self, input: WorkerInput) -> Seq<u8> {
        match (self.progress, input) {
            (Progress::Reading, WorkerInput::Payload(bytes)) => bytes@,
            _ => self.payload@,
        }
    }

    /// A job for the given paths, with nothing done yet.
    pub fn new(input_path: String, output_path: String) -> (job: PackingJob)
        ensures
            job.stage() is Idle,
            job.input_path == input_path,
            job.output_path == output_path,
            job.payload@.len() == 0,
            job.wf(),
    {
        PackingJob { input_path, output_path, payload: Vec::new(), progress: Progress::Idle }
    }

    /// The stage of the job.
    pub fn current_stage(&self) -> (stage: JobStage)
        ensures
            stage == self.stage(),
    {
        match &self.progress {
            Progress::Idle => JobStage::Idle,
            Progress::Reading => JobStage::Reading,
            Progress::Classifying => JobStage::Classifying,
            Progress::Compressing => JobStage::Compressing,
            Progress::KeyGen { .. } => JobStage::KeyGen,
            Progress::Encrypting { .. } => JobStage::Encrypting,
            Progress::Building { .. } => JobStage::Building,
            Progress::Done => JobStage::Done,
            Progress::Unsupported => JobStage::Unsupported,
            Progress::Failed => JobStage::Failed,
        }
    }

    /// The job after the compression stage, given what the stage made of
    /// the payload: with the stream, the key material is drawn next; with
    /// a failure, the run ends and reports it. A job that is not in the
    /// compression stage stays as it is and gives no step.
    pub fn after_compression(self, stage: Result<Vec<u8>, PackError>) -> (result: (
        PackingJob,
        Option<Step>,
    ))
        ensures
            result.0.input_path == self.input_path,
            result.0.output_path == self.output_path,
            result.0.payload == self.payload,
            self.progress is Compressing <==> result.1 is Some,
            !(self.progress is Compressing) ==> result.0 == self,
            result.1 matches Some(step) ==> {
                &&& match stage {
                    Ok(stream) => {
                        &&& result.0.progress == (Progress::KeyGen { compressed: stream })
                        &&& step.event.message@ == "Generating encryption keys..."@
                    },
                    Err(e) => {
                        &&& result.0.progress is Failed
                        &&& step.event.message@ == failure_text(e.text())
                    },
                }
                &&& step.event.percent == percent_of(result.0.stage())
                &&& step.request == request_of(result.0.stage())
                &&& step.event.wf()
            },
    {
        let PackingJob { input_path, output_path, payload, progress } = self;
        match (progress, stage) {
            (Progress::Compressing, Ok(stream)) => (
                PackingJob {
                    input_path,
                    output_path,
                    payload,
                    progress: Progress::KeyGen { compressed: stream },
                },
                Some(step_into(JobStage::KeyGen, String::from_str("Generating encryption keys..."))),
            ),
            (Progress::Compressing, Err(e)) => (
                PackingJob { input_path, output_path, payload, progress: Progress::Failed },
                Some(failure_step(e.describe().as_str())),
            ),
            (progress, _) => (PackingJob { input_path, output_path, payload, progress }, None),
        }
    }

    /// The job after the key material was asked for: with key material,
    /// the encryption comes next; without, the run ends and reports the
    /// failure. A job that is not waiting for key material stays as it is
    /// and gives no step.
    pub fn after_key_generation(self, drawn: Result<KeyMaterial, PackError>) -> (result: (
        PackingJob,
        Option<Step>,
    ))
        ensures
            result.0.input_path == self.input_path,
            result.0.output_path == self.output_path,
            result.0.payload == self.payload,
            self.progress is KeyGen <==> result.1 is Some,
            !(self.progress is KeyGen) ==> result.0 == self,
            result.1 matches Some(step) ==> {
                &&& match drawn {
                    Ok(keys) => {
                        &&& result.0.progress == (Progress::Encrypting {
                            compressed: self.progress->KeyGen_compressed,
                            keys,
                        })
                        &&& step.event.message@ == "Encrypting payload..."@
                    },
                    Err(e) => {
                        &&& result.0.progress is Failed
                        &&& step.event.message@ == failure_text(e.text())
                    },
                }
                &&& step.event.percent == percent_of(result.0.stage())
                &&& step.request == request_of(result.0.stage())
                &&& step.event.wf()
            },
    {
        let PackingJob { input_path, output_path, payload, progress } = self;
        match (progress, drawn) {
            (Progress::KeyGen { compressed }, Ok(keys)) => (
                PackingJob {
                    input_path,
                    output_path,
                    payload,
                    progress: Progress::Encrypting { compressed, keys },
                },
                Some(step_into(JobStage::Encrypting, String::from_str("Encrypting payload..."))),
            ),
            (Progress::KeyGen { .. }, Err(e)) => (
                PackingJob { input_path, output_path, payload, progress: Progress::Failed },
                Some(failure_step(e.describe().as_str())),
            ),
            (progress, _) => (PackingJob { input_path, output_path, payload, progress }, None),
        }
    }

    /// Takes one step. A job that does not take `input` in its stage, or
    /// that is over, stays as it is and gives no step. Every other call
    /// moves the job to a stage that follows, and gives the one event
    /// that announces it: its percent is that of the new stage, never
    /// below that of the stage before, and 100 exactly when the run is
    /// over with this step. A payload that begins with the magic number
    /// of neither format that is packed ends the run as unsupported.
    pub fn advance(self, input: WorkerInput) -> (result: (PackingJob, Option<Step>))
        ensures
            result.0.input_path == self.input_path,
            result.0.output_path == self.output_path,
            accepts(self.stage(), input) <==> result.1 is Some,
            !accepts(self.stage(), input) ==> result.0 == self,
            accepts(self.stage(), input) ==> result.0.payload@ == self.payload_after(input),
            self.stage() is Encrypting && input is Proceed ==> result.0.keys() == self.keys(),
            self.stage() is Classifying && input is Proceed && !has_elf_magic(self.payload@)
                && !has_pe_magic(self.payload@) ==> result.0.stage() is Unsupported,
            result.1 matches Some(step) ==> {
                &&& follows(self.stage(), result.0.stage())
                &&& (self.decided(input) matches Some(stage) ==> result.0.stage() == stage)
                &&& step.event.message@ == message_for(
                    self.stage(),
                    result.0.stage(),
                    input,
                    self.input_path@,
                )
                &&& step.event.percent == percent_of(result.0.stage())
                &&& step.event.percent >= percent_of(self.stage())
                &&& step.event.percent == COMPLETE <==> is_terminal(result.0.stage())
                &&& step.request == request_of(result.0.stage())
                &&& step.request is Stop <==> is_terminal(result.0.stage())
                &&& step.event.wf()
            },
            self.wf() ==> result.0.wf(),
    {
        let PackingJob { input_path, output_path, payload, progress } = self;
        match (progress, input) {
            (Progress::Idle, WorkerInput::Proceed) => {
                let message = String::from_str("Reading file: ").concat(input_path.as_str());
                (
                    PackingJob { input_path, output_path, payload, progress: Progress::Reading },
                    Some(step_into(JobStage::Reading, message)),
                )
            },
            (Progress::Reading, WorkerInput::Payload(bytes)) => (
                PackingJob {
                    input_path,
                    output_path,
                    payload: bytes,
                    progress: Progress::Classifying,
                },
                Some(
                    step_into(
                        JobStage::Classifying,
                        String::from_str("Checking executable format..."),
                    ),
                ),
            ),
            (Progress::Reading, WorkerInput::Failed(reason)) => (
                PackingJob { input_path, output_path, payload, progress: Progress::Failed },
                Some(failure_step(reason.as_str())),
            ),
            (Progress::Classifying, WorkerInput::Proceed) => {
                match classify(payload.as_slice()) {
                    FormatVerdict::KnownExecutable => (
                        PackingJob {
                            input_path,
                            output_path,
                            payload,
                            progress: Progress::Compressing,
                        },
                        Some(
                            step_into(
                                JobStage::Compressing,
                                String::from_str("Compressing payload..."),
                            ),
                        ),
                    ),
                    FormatVerdict::Unrecognized => (
                        PackingJob {
                            input_path,
                            output_path,
                            payload,
                            progress: Progress::Unsupported,
                        },
                        Some(
                            step_into(
                                JobStage::Unsupported,
                                String::from_str("❌ Unsupported executable format"),
                            ),
                        ),
                    ),
                }
            },
            (Progress::Compressing, WorkerInput::Proceed) => {
                let stage = compress_data(payload.as_slice());
                let job = PackingJob {
                    input_path,
                    output_path,
                    payload,
                    progress: Progress::Compressing,
                };
                job.after_compression(stage)
            },
            (Progress::KeyGen { compressed }, WorkerInput::Proceed) => {
                let drawn = generate_dynamic_key_iv();
                let job = PackingJob {
                    input_path,
                    output_path,
                    payload,
                    progress: Progress::KeyGen { compressed },
                };
                job.after_key_generation(drawn)
            },
            (Progress::Encrypting { compressed, keys }, WorkerInput::Proceed) => {
                let encrypted = encrypt_data(compressed.as_slice(), &keys.key, &keys.iv);
                (
                    PackingJob {
                        input_path,
                        output_path,
                        payload,
                        progress: Progress::Building { encrypted, keys },
                    },
                    Some(
                        step_into(
                            JobStage::Building,
                            String::from_str("Building stub executable..."),
                        ),
                    ),
                )
            },
            (Progress::Building { .. }, WorkerInput::Proceed) => (
                PackingJob { input_path, output_path, payload, progress: Progress::Done },
                Some(
                    step_into(
                        JobStage::Done,
                        String::from_str("✨ Packing completed successfully!"),
                    ),
                ),
            ),
            (Progress::Building { .. }, WorkerInput::Failed(reason)) => (
                PackingJob { input_path, output_path, payload, progress: Progress::Failed },
                Some(failure_step(reason.as_str())),
            ),
            (progress, _) => (PackingJob { input_path, output_path, payload, progress }, None),
        }
    }

    /// The stub, while the job waits for the build: the program that
    /// carries the encrypted payload with its key material, and the
    /// manifest.
    pub fn stub(&self) -> (stub: Option<StubSource>)
        ensures
            stub is Some <==> self.stage() is Building,
            match (stub, self.progress) {
                (Some(source), Progress::Building { encrypted, keys }) => {
                    &&& source.program@ == stub_source(encrypted@, keys.key@, keys.iv@)
                    &&& source.manifest@ == STUB_MANIFEST@
                },
                _ => true,
            },
    {
        match &self.progress {
            Progress::Building { encrypted, keys } => Some(synthesize(encrypted.as_slice(), keys)),
            _ => None,
        }
    }
}

/// The percent of the event that announces `stage`.
pub fn percent_for(stage: JobStage) -> (percent: u16)
    ensures
        percent == percent_of(stage),
        percent <= COMPLETE,
{
    match stage {
        JobStage::Idle => 0,
        JobStage::Reading => 10,
        JobStage::Classifying => 15,
        JobStage::Compressing => 20,
        JobStage::KeyGen => 30,
        JobStage::Encrypting => 40,
        JobStage::Building => 50,
        JobStage::Done => COMPLETE,
        JobStage::Unsupported => COMPLETE,
        JobStage::Failed => COMPLETE,
    }
}

/// What the worker is asked to do when a job enters `stage`.
pub fn request_for(stage: JobStage) -> (request: Request)
    ensures
        request == request_of(stage),
{
    match stage {
        JobStage::Reading => Request::ReadInput,
        JobStage::Building => Request::Build,
        JobStage::Done => Request::Stop,
        JobStage::Unsupported => Request::Stop,
        JobStage::Failed => Request::Stop,
        _ => Request::Continue,
    }
}

/// The step with which a job enters `stage` under the given message.
fn step_into(stage: JobStage, message: String) -> (step: Step)
    ensures
        step.event.message == message,
        step.event.percent == percent_of(stage),
        step.event.wf(),
        step.request == request_of(stage),
{
    Step {
        event: ProgressEvent { message, percent: percent_for(stage) },
        request: request_for(stage),
    }
}

/// The step with which a job fails for `reason`.
fn failure_step(reason: &str) -> (step: Step)
    ensures
        step.event.message@ == failure_text(reason@),
        step.event.percent == percent_of(JobStage::Failed),
        step.event.wf(),
        step.request == request_of(JobStage::Failed),
{
    Step { event: failure_event(reason), request: Request::Stop }
}

/// Stages in the order of one run: the first is `Idle`, and each of the
/// others follows the one before it.
pub open spec fn is_run(stages: Seq<JobStage>) -> bool {
    &&& stages.len() > 0
    &&& stages[0] is Idle
    &&& forall|i: int| 0 <= i < stages.len() - 1 ==> follows(stages[i], #[trigger] stages[i + 1])
}

/// From one stage to the next the percent never falls.
pub proof fn lemma_percent_never_falls(from: JobStage, to: JobStage)
    requires
        follows(from, to),
    ensures
        percent_of(from) <= percent_of(to),
{
}

/// The percent is 100 in the stages that end a run, and below in all
/// others.
pub proof fn lemma_complete_iff_terminal(stage: JobStage)
    ensures
        percent_of(stage) == COMPLETE <==> is_terminal(stage),
        percent_of(stage) <= COMPLETE,
{
}

/// Nothing follows a stage that ends a run, and every other stage has one
/// that follows it.
pub proof fn lemma_terminal_is_last(stage: JobStage)
    ensures
        is_terminal(stage) <==> forall|next: JobStage| !follows(stage, next),
{
    if !is_terminal(stage) {
        let next = match stage {
            JobStage::Idle => JobStage::Reading,
            JobStage::Reading => JobStage::Classifying,
            JobStage::Classifying => JobStage::Compressing,
            JobStage::Compressing => JobStage::KeyGen,
            JobStage::KeyGen => JobStage::Encrypting,
            JobStage::Encrypting => JobStage::Building,
            _ => JobStage::Done,
        };
        assert(follows(stage, next));
    }
}

/// Over a whole run, from `Idle` to a stage that ends it, the percents
/// of the events form a sequence that never falls and that reaches 100
/// exactly once, with the last event. A run has at most eight stages.
pub proof fn lemma_run_percents(stages: Seq<JobStage>)
    requires
        is_run(stages),
        is_terminal(stages.last()),
    ensures
        forall|i: int, j: int|
            0 <= i <= j < stages.len() ==> percent_of(#[trigger] stages[i]) <= percent_of(
                #[trigger] stages[j],
            ),
        percent_of(stages.last()) == COMPLETE,
        forall|i: int| 0 <= i < stages.len() - 1 ==> percent_of(#[trigger] stages[i]) < COMPLETE,
        stages.len() <= 8,
{
    assert forall|i: int| 0 <= i < stages.len() - 1 implies percent_of(#[trigger] stages[i])
        < COMPLETE by {
        assert(follows(stages[i], stages[i + 1]));
    }
    assert forall|i: int, j: int| 0 <= i <= j < stages.len() implies percent_of(
        #[trigger] stages[i],
    ) <= percent_of(#[trigger] stages[j]) by {
        lemma_complete_iff_terminal(stages[j]);
        if j < stages.len() - 1 {
            lemma_rank_grows(stages, i, j);
        } else {
            lemma_complete_iff_terminal(stages[i]);
        }
    }
    lemma_rank_grows(stages, 0, stages.len() - 1);
}

/// No stage occurs twice in a run. So the format is told once, the key
/// material is drawn once, and the stub is built once.
pub proof fn lemma_stage_once(stages: Seq<JobStage>, i: int, j: int)
    requires
        is_run(stages),
        0 <= i < j < stages.len(),
    ensures
        stages[i] != stages[j],
        rank(stages[i]) < rank(stages[j]),
{
    lemma_rank_grows(stages, i, j);
}

/// The place of a stage in the order of a run.
pub open spec fn rank(stage: JobStage) -> int {
    match stage {
        JobStage::Idle => 0,
        JobStage::Reading => 1,
        JobStage::Classifying => 2,
        JobStage::Compressing => 3,
        JobStage::KeyGen => 4,
        JobStage::Encrypting => 5,
        JobStage::Building => 6,
        _ => 7,
    }
}

/// Along a run the rank grows by at least one with every stage, and the
/// percent never falls.
proof fn lemma_rank_grows(stages: Seq<JobStage>, i: int, j: int)
    requires
        is_run(stages),
        0 <= i <= j < stages.len(),
    ensures
        rank(stages[j]) >= rank(stages[i]) + (j - i),
        percent_of(stages[i]) <= percent_of(stages[j]),
    decreases j - i,
{
    if i < j {
        lemma_rank_grows(stages, i, j - 1);
        assert(follows(stages[j - 1], stages[j - 1 + 1]));
    }
}


} // verus!
