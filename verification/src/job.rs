//! One file of a batch, from the look at its output path to its outcome.
//!
//! The work on the file system is the driver's: it looks whether the output
//! exists, creates the output directory, opens the input and writes the
//! output, and reports each result as an event. The job decides what comes
//! next, and converts the opened file itself.

use vstd::prelude::*;
use imagepipe::Pipeline;
use crate::convert::{convert_arw, converted};
use crate::format::OutputFormat;
use crate::outcome::{ConversionOutcome, Failure, Stage};
use crate::path::FilePath;

verus! {

/// What is asked for one input file. It is made once, before the file is
/// dispatched, and not changed after.
#[derive(Debug, PartialEq, Eq)]
pub struct ConversionRequest {
    /// The RAW file.
    pub input: FilePath,
    /// Where the converted file goes.
    pub output: FilePath,
    /// The container of the converted file.
    pub format: OutputFormat,
    /// The quality of the lossy format, 1 to 100; the lossless ones ignore it.
    pub quality: u8,
    /// The longest edge that the converted image may have.
    pub max_long_edge: Option<u32>,
    /// Whether an output file that exists is written anew.
    pub overwrite: bool,
}

/// What the job waits for.
#[derive(Clone, Copy, Debug, PartialEq, Eq, Structural)]
pub enum Phase {
    /// Whether the output file exists.
    AwaitProbe,
    /// The creation of the output directory.
    AwaitDirectory,
    /// The opening of the input file.
    AwaitOpen,
    /// The writing of the output file.
    AwaitWrite,
    /// Nothing: the outcome is out.
    Finished,
}

/// What the driver reports.
pub enum Event {
    /// Whether the output file exists.
    Probed(bool),
    /// The output directory is there, or the reason why it is not.
    DirectoryCreated(Result<(), String>),
    /// The input file opened, or the reason why it did not.
    Opened(Result<Pipeline, String>),
    /// The output file is written, or the reason why it is not.
    Written(Result<(), String>),
}

/// What the driver is to do next.
#[derive(Debug, PartialEq, Eq)]
pub enum Action {
    /// Create the directory of the output file, with those above it.
    CreateDirectory,
    /// Open the input file.
    OpenInput,
    /// Write these bytes as the output file.
    WriteOutput(Vec<u8>),
    /// Nothing more: the file has its outcome.
    Finish(ConversionOutcome),
}

/// A file on its way through the pipeline.
pub struct Job {
    request: ConversionRequest,
    phase: Phase,
}

/// The event is the one that the phase waits for.
pub open spec fn expected(phase: Phase, event: Event) -> bool {
    match (phase, event) {
        (Phase::AwaitProbe, Event::Probed(_)) => true,
        (Phase::AwaitDirectory, Event::DirectoryCreated(_)) => true,
        (Phase::AwaitOpen, Event::Opened(_)) => true,
        (Phase::AwaitWrite, Event::Written(_)) => true,
        _ => false,
    }
}

/// The action ends the file with a failure at `stage` with `message`.
pub open spec fn fails(action: Action, stage: Stage, message: String) -> bool {
    action matches Action::Finish(ConversionOutcome::Failed(f)) && f.stage == stage && f.message
        == message
}

/// The step that the job owes for an event, from `phase` to `next` with
/// `action`:
/// - An output that exists is skipped unless overwriting was asked for; then,
///   and where there is none, the output directory is created first.
/// - With the directory there the input is opened; without, the file fails
///   at the stage `DirectoryCreate`.
/// - An input that does not open fails at the stage `Decode`. One that opens
///   is converted: its bytes are to be written, or it fails at the stage
///   that `convert_arw` names.
/// - With the output written the file has succeeded; a write that fails is a
///   failure at the stage `Encode`.
pub open spec fn stepped(
    phase: Phase,
    request: ConversionRequest,
    event: Event,
    next: Phase,
    action: Action,
) -> bool {
    match (phase, event) {
        (Phase::AwaitProbe, Event::Probed(exists)) => if exists && !request.overwrite {
            next == Phase::Finished && action == Action::Finish(ConversionOutcome::Skipped)
        } else {
            next == Phase::AwaitDirectory && action == Action::CreateDirectory
        },
        (Phase::AwaitDirectory, Event::DirectoryCreated(Ok(_))) => next == Phase::AwaitOpen
            && action == Action::OpenInput,
        (Phase::AwaitDirectory, Event::DirectoryCreated(Err(message))) => next == Phase::Finished
            && fails(action, Stage::DirectoryCreate, message),
        (Phase::AwaitOpen, Event::Opened(Err(message))) => next == Phase::Finished && fails(
            action,
            Stage::Decode,
            message,
        ),
        (Phase::AwaitOpen, Event::Opened(Ok(_))) => exists|r: Result<Vec<u8>, Failure>| #[trigger]
            converted(request.format, request.quality, request.max_long_edge, r) && match r {
                Ok(bytes) => next == Phase::AwaitWrite && action == Action::WriteOutput(bytes),
                Err(f) => next == Phase::Finished && action == Action::Finish(
                    ConversionOutcome::Failed(f),
                ) && f.stage != Stage::DirectoryCreate,
            },
        (Phase::AwaitWrite, Event::Written(Ok(_))) => next == Phase::Finished && action
            == Action::Finish(ConversionOutcome::Success),
        (Phase::AwaitWrite, Event::Written(Err(message))) => next == Phase::Finished && fails(
            action,
            Stage::Encode,
            message,
        ),
        _ => false,
    }
}

impl Job {
    /// What was asked for the file.
    pub closed spec fn spec_request(&self) -> ConversionRequest {
        self.request
    }

    /// What the job waits for.
    pub closed spec fn spec_phase(&self) -> Phase {
        self.phase
    }

    /// A job for `request`. It waits to hear whether the output file exists.
    pub fn new(request: ConversionRequest) -> (job: Job)
        ensures
            job.spec_request() == request,
            job.spec_phase() == Phase::AwaitProbe,
    {
        Job { request, phase: Phase::AwaitProbe }
    }

    /// What was asked for the file.
    pub fn request(&self) -> (r: &ConversionRequest)
        ensures
            *r == self.spec_request(),
    {
        &self.request
    }

    /// What the job waits for.
    #[verifier::when_used_as_spec(spec_phase)]
    pub fn phase(&self) -> (p: Phase)
        ensures
            p == self.spec_phase(),
    {
        self.phase
    }

    /// Whether the event is the one that the job waits for.
    pub fn expects(&self, event: &Event) -> (b: bool)
        ensures
            b == expected(self.spec_phase(), *event),
    {
        match (self.phase, event) {
            (Phase::AwaitProbe, Event::Probed(_)) => true,
            (Phase::AwaitDirectory, Event::DirectoryCreated(_)) => true,
            (Phase::AwaitOpen, Event::Opened(_)) => true,
            (Phase::AwaitWrite, Event::Written(_)) => true,
            _ => false,
        }
    }

    /// Takes the event that the job waits for and says what comes next. The
    /// file is finished exactly when the action is `Finish`: it then has its
    /// one outcome, and the job waits for nothing more.
    pub fn advance(&mut self, event: Event) -> (action: Action)
        requires
            expected(old(self).spec_phase(), event),
        ensures
            final(self).spec_request() == old(self).spec_request(),
            stepped(
                old(self).spec_phase(),
                old(self).spec_request(),
                event,
                final(self).spec_phase(),
                action,
            ),
            final(self).spec_phase() == Phase::Finished <==> action is Finish,
    {
        match event {
            Event::Probed(exists) => {
                if exists && !self.request.overwrite {
                    self.phase = Phase::Finished;
                    Action::Finish(ConversionOutcome::Skipped)
                } else {
                    self.phase = Phase::AwaitDirectory;
                    Action::CreateDirectory
                }
            },
            Event::DirectoryCreated(Ok(_)) => {
                self.phase = Phase::AwaitOpen;
                Action::OpenInput
            },
            Event::DirectoryCreated(Err(message)) => {
                self.phase = Phase::Finished;
                Action::Finish(
                    ConversionOutcome::Failed(Failure::new(Stage::DirectoryCreate, message)),
                )
            },
            Event::Opened(Err(message)) => {
                self.phase = Phase::Finished;
                Action::Finish(ConversionOutcome::Failed(Failure::new(Stage::Decode, message)))
            },
            Event::Opened(Ok(opened)) => {
                let mut pipeline: Pipeline = opened;
                let r: Result<Vec<u8>, Failure> = convert_arw(
                    &mut pipeline,
                    self.request.format,
                    self.request.quality,
                    self.request.max_long_edge,
                );
                assert(converted(
                    self.request.format,
                    self.request.quality,
                    self.request.max_long_edge,
                    r,
                ));
                match r {
                    Ok(bytes) => {
                        self.phase = Phase::AwaitWrite;
                        Action::WriteOutput(bytes)
                    },
                    Err(f) => {
                        self.phase = Phase::Finished;
                        Action::Finish(ConversionOutcome::Failed(f))
                    },
                }
            },
            Event::Written(Ok(_)) => {
                self.phase = Phase::Finished;
                Action::Finish(ConversionOutcome::Success)
            },
            Event::Written(Err(message)) => {
                self.phase = Phase::Finished;
                Action::Finish(ConversionOutcome::Failed(Failure::new(Stage::Encode, message)))
            },
        }
    }
}

/// The skip policy. An output that exists is skipped where overwriting was
/// not asked for: the file is finished at once, and its input is never
/// opened. Where overwriting was asked for the file goes on to the pipeline
/// whether its output exists or not, and so does one whose output does not
/// exist.
pub proof fn lemma_skip_policy(request: ConversionRequest, exists: bool, next: Phase, action: Action)
    requires
        stepped(Phase::AwaitProbe, request, Event::Probed(exists), next, action),
    ensures
        exists && !request.overwrite ==> action == Action::Finish(ConversionOutcome::Skipped)
            && next == Phase::Finished,
        request.overwrite || !exists ==> action == Action::CreateDirectory && next
            == Phase::AwaitDirectory,
{
}

/// An outcome is final: a finished job waits for no event.
pub proof fn lemma_finished_is_final(event: Event)
    ensures
        !expected(Phase::Finished, event),
{
}

/// Every step either finishes the file with its outcome or asks the driver
/// for the work whose result the job waits for next.
pub proof fn lemma_step_asks_or_finishes(
    phase: Phase,
    request: ConversionRequest,
    event: Event,
    next: Phase,
    action: Action,
)
    requires
        stepped(phase, request, event, next, action),
    ensures
        expected(phase, event),
        match action {
            Action::Finish(_) => next == Phase::Finished,
            Action::CreateDirectory => next == Phase::AwaitDirectory,
            Action::OpenInput => next == Phase::AwaitOpen,
            Action::WriteOutput(_) => next == Phase::AwaitWrite,
        },
{
}

} // verus!
