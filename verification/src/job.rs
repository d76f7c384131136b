//! The orchestration of one flash job as an explicit state machine. Phases
//! run strictly in order: check cancellation, unmount everything, open the
//! device exclusively, resolve the source, copy, finalize, announce. The
//! surrounding process performs each instructed action and feeds the outcome
//! back as the next event; every transition is decided and verified here.
//!
//! Finalization (rescan and eject) is unconditional once a device handle was
//! opened — after success, failure and cancellation alike — and happens
//! exactly once. The terminal status is announced exactly once, after
//! finalization and never before, and a cancelled job ends silently.

use vstd::prelude::*;
use vstd::string::StringExecFns;
use crate::errors::{ErrorView, FlashError, message_of, error_message};
use crate::resolver::{DiskImage, SourceView};
use crate::transfer::{CopyOutcome, CopyOutcomeView};

verus! {

/// How a job ended. Only a failure carries a message; cancellation is not an
/// error and ends the job silently.
#[derive(Debug)]
pub enum JobResult {
    Succeeded,
    Cancelled,
    Failed { error: FlashError },
}

pub enum JobResultView {
    Succeeded,
    Cancelled,
    Failed { error: ErrorView },
}

impl View for JobResult {
    type V = JobResultView;

    open spec fn view(&self) -> JobResultView {
        match self {
            JobResult::Succeeded => JobResultView::Succeeded,
            JobResult::Cancelled => JobResultView::Cancelled,
            JobResult::Failed { error } => JobResultView::Failed { error: error@ },
        }
    }
}

impl Clone for JobResult {
    fn clone(&self) -> (r: Self)
        ensures
            r@ == self@,
    {
        match self {
            JobResult::Succeeded => JobResult::Succeeded,
            JobResult::Cancelled => JobResult::Cancelled,
            JobResult::Failed { error } => JobResult::Failed { error: error.clone() },
        }
    }
}

/// The phase a job is in. `Finalizing` already knows the result it will end
/// with; it is withheld until the device has been rescanned and ejected.
#[derive(Debug)]
pub enum JobState {
    Created,
    Unmounting,
    Opening,
    Resolving,
    Copying { size: u64 },
    Finalizing { result: JobResult },
    Terminal { result: JobResult },
}

pub enum JobStateView {
    Created,
    Unmounting,
    Opening,
    Resolving,
    Copying { size: u64 },
    Finalizing { result: JobResultView },
    Terminal { result: JobResultView },
}

impl View for JobState {
    type V = JobStateView;

    open spec fn view(&self) -> JobStateView {
        match self {
            JobState::Created => JobStateView::Created,
            JobState::Unmounting => JobStateView::Unmounting,
            JobState::Opening => JobStateView::Opening,
            JobState::Resolving => JobStateView::Resolving,
            JobState::Copying { size } => JobStateView::Copying { size: *size },
            JobState::Finalizing { result } => JobStateView::Finalizing { result: result@ },
            JobState::Terminal { result } => JobStateView::Terminal { result: result@ },
        }
    }
}

/// What the resolve phase reported back.
#[derive(Debug)]
pub enum ResolveOutcome {
    /// A readable, fully materialized stream of `size` bytes is ready; zero
    /// means the size could not be determined.
    Resolved { size: u64 },
    /// The cancellation flag was observed cleared inside the resolver.
    Cancelled,
    /// The source could not be obtained.
    Failed { error: FlashError },
}

pub enum ResolveOutcomeView {
    Resolved { size: u64 },
    Cancelled,
    Failed { error: ErrorView },
}

impl View for ResolveOutcome {
    type V = ResolveOutcomeView;

    open spec fn view(&self) -> ResolveOutcomeView {
        match self {
            ResolveOutcome::Resolved { size } => ResolveOutcomeView::Resolved { size: *size },
            ResolveOutcome::Cancelled => ResolveOutcomeView::Cancelled,
            ResolveOutcome::Failed { error } => ResolveOutcomeView::Failed { error: error@ },
        }
    }
}

/// One outcome fed back to the machine by the surrounding process.
#[derive(Debug)]
pub enum JobEvent {
    /// The job is asked to begin; `cancelled` is the flag read at that
    /// moment.
    Start { cancelled: bool },
    /// All partitions have been walked for unmounting. Unmount failures are
    /// advisory, so the event cannot carry one.
    Unmounted { cancelled: bool },
    /// The exclusive open of the device succeeded or was denied.
    Opened { result: Result<(), String> },
    /// The resolve phase ended, and the flag read after it.
    Resolved { outcome: ResolveOutcome, cancelled: bool },
    /// The copy phase ended.
    Copied { outcome: CopyOutcome },
    /// The device has been rescanned and the drive ejected (best effort).
    Finalized,
}

pub enum JobEventView {
    Start { cancelled: bool },
    Unmounted { cancelled: bool },
    Opened { result: Result<(), Seq<char>> },
    Resolved { outcome: ResolveOutcomeView, cancelled: bool },
    Copied { outcome: CopyOutcomeView },
    Finalized,
}

impl View for JobEvent {
    type V = JobEventView;

    open spec fn view(&self) -> JobEventView {
        match self {
            JobEvent::Start { cancelled } => JobEventView::Start { cancelled: *cancelled },
            JobEvent::Unmounted { cancelled } => JobEventView::Unmounted { cancelled: *cancelled },
            JobEvent::Opened { result } => JobEventView::Opened {
                result: match result {
                    Ok(u) => Ok(*u),
                    Err(d) => Err(d@),
                },
            },
            JobEvent::Resolved { outcome, cancelled } => JobEventView::Resolved {
                outcome: outcome@,
                cancelled: *cancelled,
            },
            JobEvent::Copied { outcome } => JobEventView::Copied { outcome: outcome@ },
            JobEvent::Finalized => JobEventView::Finalized,
        }
    }
}

/// The next thing the surrounding process must do.
#[derive(Debug)]
pub enum JobAction {
    /// Force-unmount the device's parent and every partition, classifying
    /// each reply; then report `Unmounted`.
    UnmountAll,
    /// Ask the disk-management service for a raw, synchronous, exclusive
    /// read-write handle; then report `Opened`.
    OpenDevice,
    /// Execute the source's resolve plan; then report `Resolved`.
    ResolveSource,
    /// Stream the resolved source to the device handle in chunks; then
    /// report `Copied`.
    CopySource { size: u64 },
    /// Best-effort rescan the device and eject the drive; then report
    /// `Finalized`.
    Finalize,
    /// Publish the terminal status `Done(message)`. Nothing follows it.
    Announce { message: Option<String> },
    /// The job is over; nothing is to be done.
    Rest,
}

pub enum JobActionView {
    UnmountAll,
    OpenDevice,
    ResolveSource,
    CopySource { size: u64 },
    Finalize,
    Announce { message: Option<Seq<char>> },
    Rest,
}

impl View for JobAction {
    type V = JobActionView;

    open spec fn view(&self) -> JobActionView {
        match self {
            JobAction::UnmountAll => JobActionView::UnmountAll,
            JobAction::OpenDevice => JobActionView::OpenDevice,
            JobAction::ResolveSource => JobActionView::ResolveSource,
            JobAction::CopySource { size } => JobActionView::CopySource { size: *size },
            JobAction::Finalize => JobActionView::Finalize,
            JobAction::Announce { message } => JobActionView::Announce {
                message: match message {
                    Some(m) => Some(m@),
                    None => None,
                },
            },
            JobAction::Rest => JobActionView::Rest,
        }
    }
}

/// The mathematical state of a whole job machine.
pub struct MachineView {
    pub source: SourceView,
    pub state: JobStateView,
    pub handle_opened: bool,
    pub finalize_count: int,
}

/// Which events a state accepts: exactly the outcome of the action the
/// machine last instructed. A terminal machine accepts no event at all.
pub open spec fn step_enabled(state: JobStateView, e: JobEventView) -> bool {
    match (state, e) {
        (JobStateView::Created, JobEventView::Start { .. }) => true,
        (JobStateView::Unmounting, JobEventView::Unmounted { .. }) => true,
        (JobStateView::Opening, JobEventView::Opened { .. }) => true,
        (JobStateView::Resolving, JobEventView::Resolved { .. }) => true,
        (JobStateView::Copying { .. }, JobEventView::Copied { .. }) => true,
        (JobStateView::Finalizing { .. }, JobEventView::Finalized) => true,
        _ => false,
    }
}

/// The result a job ends with for each way the copy phase can end: a read or
/// write failure during the copy is an I/O failure of the job, cancellation
/// stays cancellation.
pub open spec fn job_result_of_copy(o: CopyOutcomeView) -> JobResultView {
    match o {
        CopyOutcomeView::Success => JobResultView::Succeeded,
        CopyOutcomeView::Cancelled => JobResultView::Cancelled,
        CopyOutcomeView::ReadFailed { details } => JobResultView::Failed {
            error: ErrorView::IoFailure { details },
        },
        CopyOutcomeView::WriteFailed => JobResultView::Failed {
            error: ErrorView::IoFailure { details: "writing to disk failed"@ },
        },
    }
}

/// The transition relation: from a machine and an event to the next machine
/// and the instructed action.
pub open spec fn spec_step(m: MachineView, e: JobEventView) -> (MachineView, JobActionView) {
    match (m.state, e) {
        (JobStateView::Created, JobEventView::Start { cancelled }) => {
            if cancelled {
                (
                    MachineView {
                        state: JobStateView::Terminal { result: JobResultView::Cancelled },
                        ..m
                    },
                    JobActionView::Rest,
                )
            } else {
                (MachineView { state: JobStateView::Unmounting, ..m }, JobActionView::UnmountAll)
            }
        },
        (JobStateView::Unmounting, JobEventView::Unmounted { cancelled }) => {
            if cancelled {
                (
                    MachineView {
                        state: JobStateView::Terminal { result: JobResultView::Cancelled },
                        ..m
                    },
                    JobActionView::Rest,
                )
            } else {
                (MachineView { state: JobStateView::Opening, ..m }, JobActionView::OpenDevice)
            }
        },
        (JobStateView::Opening, JobEventView::Opened { result }) => {
            match result {
                Ok(_) => (
                    MachineView { state: JobStateView::Resolving, handle_opened: true, ..m },
                    JobActionView::ResolveSource,
                ),
                Err(details) => {
                    let error = ErrorView::DeviceUnavailable { details };
                    (
                        MachineView {
                            state: JobStateView::Terminal {
                                result: JobResultView::Failed { error },
                            },
                            ..m
                        },
                        JobActionView::Announce { message: Some(message_of(error)) },
                    )
                },
            }
        },
        (JobStateView::Resolving, JobEventView::Resolved { outcome, cancelled }) => {
            match outcome {
                ResolveOutcomeView::Failed { error } => (
                    MachineView {
                        state: JobStateView::Finalizing {
                            result: JobResultView::Failed { error },
                        },
                        finalize_count: m.finalize_count + 1,
                        ..m
                    },
                    JobActionView::Finalize,
                ),
                ResolveOutcomeView::Cancelled => (
                    MachineView {
                        state: JobStateView::Finalizing { result: JobResultView::Cancelled },
                        finalize_count: m.finalize_count + 1,
                        ..m
                    },
                    JobActionView::Finalize,
                ),
                ResolveOutcomeView::Resolved { size } => {
                    if cancelled {
                        (
                            MachineView {
                                state: JobStateView::Finalizing {
                                    result: JobResultView::Cancelled,
                                },
                                finalize_count: m.finalize_count + 1,
                                ..m
                            },
                            JobActionView::Finalize,
                        )
                    } else {
                        (
                            MachineView { state: JobStateView::Copying { size }, ..m },
                            JobActionView::CopySource { size },
                        )
                    }
                },
            }
        },
        (JobStateView::Copying { .. }, JobEventView::Copied { outcome }) => {
            let result = job_result_of_copy(outcome);
            (
                MachineView {
                    state: JobStateView::Finalizing { result },
                    finalize_count: m.finalize_count + 1,
                    ..m
                },
                JobActionView::Finalize,
            )
        },
        (JobStateView::Finalizing { result }, JobEventView::Finalized) => {
            let action = match result {
                JobResultView::Succeeded => JobActionView::Announce { message: None },
                JobResultView::Failed { error } => JobActionView::Announce {
                    message: Some(message_of(error)),
                },
                JobResultView::Cancelled => JobActionView::Rest,
            };
            (MachineView { state: JobStateView::Terminal { result }, ..m }, action)
        },
        _ => (m, JobActionView::Rest),
    }
}

/// The machine's invariant, tying the finalize count to the phase: no
/// finalization before a handle exists, exactly one from the moment the
/// `Finalizing` phase is entered, and at the end exactly one if and only if
/// a handle was opened.
pub open spec fn machine_wf(m: MachineView) -> bool {
    match m.state {
        JobStateView::Created => !m.handle_opened && m.finalize_count == 0,
        JobStateView::Unmounting => !m.handle_opened && m.finalize_count == 0,
        JobStateView::Opening => !m.handle_opened && m.finalize_count == 0,
        JobStateView::Resolving => m.handle_opened && m.finalize_count == 0,
        JobStateView::Copying { .. } => m.handle_opened && m.finalize_count == 0,
        JobStateView::Finalizing { .. } => m.handle_opened && m.finalize_count == 1,
        JobStateView::Terminal { .. } => m.finalize_count == if m.handle_opened {
            1int
        } else {
            0int
        },
    }
}

/// Law: finalization is unconditional and exact. However a job ends —
/// success, failure or cancellation — by the time it is terminal it has
/// finalized exactly once if a device handle was ever opened, and never
/// otherwise.
pub proof fn lemma_finalize_unconditional(m: MachineView)
    requires
        machine_wf(m),
        m.state is Terminal,
    ensures
        m.finalize_count == if m.handle_opened {
            1int
        } else {
            0int
        },
{
}

/// Law: every enabled step preserves the machine invariant.
pub proof fn lemma_step_preserves_wf(m: MachineView, e: JobEventView)
    requires
        machine_wf(m),
        step_enabled(m.state, e),
    ensures
        machine_wf(spec_step(m, e).0),
{
}

/// Law: the terminal status is announced only on the transition into the
/// terminal state.
pub proof fn lemma_announce_is_last(m: MachineView, e: JobEventView)
    requires
        machine_wf(m),
        step_enabled(m.state, e),
    ensures
        spec_step(m, e).1 is Announce ==> spec_step(m, e).0.state is Terminal,
{
}

/// Law: a terminal machine accepts no further event, so nothing can ever be
/// published after the terminal status.
pub proof fn lemma_terminal_accepts_nothing(m: MachineView, e: JobEventView)
    requires
        m.state is Terminal,
    ensures
        !step_enabled(m.state, e),
{
}

/// One flash job: the source it reads, and the machine state it is in. The
/// destination handle, the shared status cell and the shared cancellation
/// flag live with the surrounding process, which drives this machine and
/// reports every outcome back as a `JobEvent`.
pub struct FlashRequest {
    source: DiskImage,
    state: JobState,
    handle_opened: bool,
    finalize_count: u64,
}

impl View for FlashRequest {
    type V = MachineView;

    closed spec fn view(&self) -> MachineView {
        MachineView {
            source: self.source@,
            state: self.state@,
            handle_opened: self.handle_opened,
            finalize_count: self.finalize_count as int,
        }
    }
}

impl FlashRequest {
    /// Creates a job for one source. The machine starts in `Created` with
    /// no handle opened and nothing finalized.
    pub fn new(source: DiskImage) -> (r: Self)
        ensures
            r@ == (MachineView {
                source: source@,
                state: JobStateView::Created,
                handle_opened: false,
                finalize_count: 0,
            }),
            machine_wf(r@),
    {
        FlashRequest {
            source,
            state: JobState::Created,
            handle_opened: false,
            finalize_count: 0,
        }
    }

    /// The source this job reads.
    pub fn source(&self) -> (r: &DiskImage)
        ensures
            r@ == self@.source,
    {
        &self.source
    }

    /// Takes the job's terminal result, once it has one.
    pub fn into_result(self) -> (r: Option<JobResult>)
        ensures
            match self@.state {
                JobStateView::Terminal { result } => r matches Some(x) && x@ == result,
                _ => r is None,
            },
    {
        match self.state {
            JobState::Terminal { result } => Some(result),
            _ => None,
        }
    }

    /// Feeds one event to the machine and returns the next action to
    /// perform. The transition is exactly `spec_step`, and the machine
    /// invariant is preserved.
    pub fn step(&mut self, event: JobEvent) -> (action: JobAction)
        requires
            step_enabled(old(self)@.state, event@),
            machine_wf(old(self)@),
        ensures
            final(self)@ == spec_step(old(self)@, event@).0,
            action@ == spec_step(old(self)@, event@).1,
            machine_wf(final(self)@),
    {
        match event {
            JobEvent::Start { cancelled } => {
                if cancelled {
                    self.state = JobState::Terminal { result: JobResult::Cancelled };
                    JobAction::Rest
                } else {
                    self.state = JobState::Unmounting;
                    JobAction::UnmountAll
                }
            },
            JobEvent::Unmounted { cancelled } => {
                if cancelled {
                    self.state = JobState::Terminal { result: JobResult::Cancelled };
                    JobAction::Rest
                } else {
                    self.state = JobState::Opening;
                    JobAction::OpenDevice
                }
            },
            JobEvent::Opened { result } => {
                match result {
                    Ok(()) => {
                        self.state = JobState::Resolving;
                        self.handle_opened = true;
                        JobAction::ResolveSource
                    },
                    Err(details) => {
                        let error = FlashError::DeviceUnavailable { details };
                        let message = error_message(&error);
                        self.state = JobState::Terminal {
                            result: JobResult::Failed { error },
                        };
                        JobAction::Announce { message: Some(message) }
                    },
                }
            },
            JobEvent::Resolved { outcome, cancelled } => {
                match outcome {
                    ResolveOutcome::Failed { error } => {
                        self.state = JobState::Finalizing {
                            result: JobResult::Failed { error },
                        };
                        self.finalize_count = self.finalize_count + 1;
                        JobAction::Finalize
                    },
                    ResolveOutcome::Cancelled => {
                        self.state = JobState::Finalizing { result: JobResult::Cancelled };
                        self.finalize_count = self.finalize_count + 1;
                        JobAction::Finalize
                    },
                    ResolveOutcome::Resolved { size } => {
                        if cancelled {
                            self.state = JobState::Finalizing { result: JobResult::Cancelled };
                            self.finalize_count = self.finalize_count + 1;
                            JobAction::Finalize
                        } else {
                            self.state = JobState::Copying { size };
                            JobAction::CopySource { size }
                        }
                    },
                }
            },
            JobEvent::Copied { outcome } => {
                let result = match outcome {
                    CopyOutcome::Success => JobResult::Succeeded,
                    CopyOutcome::Cancelled => JobResult::Cancelled,
                    CopyOutcome::ReadFailed { details } => JobResult::Failed {
                        error: FlashError::IoFailure { details },
                    },
                    CopyOutcome::WriteFailed => JobResult::Failed {
                        error: FlashError::IoFailure {
                            details: String::from_str("writing to disk failed"),
                        },
                    },
                };
                self.state = JobState::Finalizing { result };
                self.finalize_count = self.finalize_count + 1;
                JobAction::Finalize
            },
            JobEvent::Finalized => {
                let result = match &self.state {
                    JobState::Finalizing { result } => result.clone(),
                    _ => JobResult::Cancelled,
                };
                let action = match &result {
                    JobResult::Succeeded => JobAction::Announce { message: None },
                    JobResult::Failed { error } => JobAction::Announce {
                        message: Some(error_message(error)),
                    },
                    JobResult::Cancelled => JobAction::Rest,
                };
                self.state = JobState::Terminal { result };
                action
            },
        }
    }
}

} // verus!
