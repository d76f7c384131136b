//! A complete flash job run against a simulated world: an in-memory device,
//! scripted replies from the disk-management service, a scripted source, and
//! a cancellation flag that clears at one chosen point. The run drives the
//! same job machine, resolver accounting and copy engine the surrounding
//! process drives against the real world, so the pipeline's guarantees are
//! stated and proved here end to end: finalization happens exactly once
//! whenever a handle was opened, a successful job reproduces the source on
//! the device byte for byte, a failed job announces its message exactly
//! once and last, and a cancelled job stops within one chunk and ends
//! silently.

use vstd::prelude::*;
use vstd::pervasive::unreached;
use crate::device::{UnmountReply, unmount_all_outcome};
use crate::errors::{ErrorView, FlashError, message_of};
use crate::job::{
    FlashRequest, JobAction, JobEvent, JobResult, JobResultView, ResolveOutcome,
    job_result_of_copy, machine_wf,
};
use crate::progress::{FlashPhase, FlashStatus, Progress, ProgressChannel, progress_of};
use crate::resolver::{Compression, DiskImage, DownloadStep, DownloadTracker, SourceView,
    download_frac_at_most, download_fraction_num, download_fractions_monotone, extract_result};
use crate::transfer::{
    copy_fraction_num, copy_fractions_monotone, copy_run, copy_simulated,
};

verus! {

/// The single point at which the shared cancellation flag is observed
/// cleared. The flag is never set again once cleared, so one point describes
/// every run.
#[derive(Clone, Copy, Debug, PartialEq, Eq, Structural)]
pub enum CancelPoint {
    /// The flag stays set for the whole run.
    Never,
    /// Cleared before the job starts: it ends without touching the device.
    BeforeStart,
    /// Cleared between unmounting and opening the device.
    AfterUnmount,
    /// Cleared while the source is being resolved.
    DuringResolve,
    /// Cleared once `at` bytes of the copy have been written.
    DuringCopy { at: u64 },
}

/// Everything the simulated world answers during one run.
pub struct JobScript {
    /// The service's reply for each partition that is force-unmounted.
    pub unmount_replies: Vec<UnmountReply>,
    /// Whether the exclusive open succeeds, or the service's error detail.
    pub open_result: Result<(), String>,
    /// For a raw local source: whether the file can be opened.
    pub local_exists: bool,
    /// The detail reported when it cannot.
    pub local_error: String,
    /// For a compressed local source: whether the decompressor exits with
    /// code zero.
    pub xz_exit_ok: bool,
    /// Its captured standard-error text, if any.
    pub xz_stderr: Option<String>,
    /// For a remote source: the content length the server reports, if any.
    pub content_length: Option<u64>,
    /// The bytes the resolved source yields.
    pub source_bytes: Vec<u8>,
    /// Whether the resolved stream's size can be determined; when not, the
    /// copy runs with a size hint of zero and reports pulses.
    pub size_known: bool,
    /// The chunk size of both the download and the copy loop.
    pub chunk_size: usize,
    /// The offset from which writes to the device fail, if any.
    pub write_fail_at: Option<u64>,
    /// Where the cancellation flag clears.
    pub cancel: CancelPoint,
}

/// What one simulated run did.
pub struct JobReport {
    /// The job's terminal result.
    pub result: JobResult,
    /// The bytes that ended up on the simulated device.
    pub device: Vec<u8>,
    /// Whether an exclusive device handle was opened.
    pub handle_opened: bool,
    /// How often the device was finalized (rescanned and ejected).
    pub finalize_count: u64,
    /// Whether the unmount walk was performed.
    pub unmount_attempted: bool,
}

/// The size hint the copy phase runs with.
pub open spec fn script_size(script: &JobScript) -> u64 {
    if script.size_known {
        script.source_bytes@.len() as u64
    } else {
        0
    }
}

/// The copy-phase cancellation offset a cancel point induces.
pub open spec fn copy_cancel_of(c: CancelPoint) -> Option<u64> {
    match c {
        CancelPoint::DuringCopy { at } => Some(at),
        _ => None,
    }
}

/// Whether the scripted resolve phase hands back a readable stream.
pub open spec fn resolve_succeeds(source: SourceView, script: &JobScript) -> bool {
    match source {
        SourceView::Local { compression: Compression::Raw, .. } => script.local_exists,
        SourceView::Local { compression: Compression::Xz, .. } => script.xz_exit_ok,
        SourceView::Online { .. } => script.content_length is Some,
    }
}

impl FlashRequest {
    /// Runs this job to completion against the simulated world in `script`,
    /// publishing progress and the terminal status into `chan`, and reports
    /// what happened. The contract is the pipeline's correctness statement;
    /// see the clauses for the individual guarantees.
    pub fn perform(self, script: &JobScript, chan: &mut ProgressChannel) -> (r: JobReport)
        requires
            self@.state is Created,
            machine_wf(self@),
            script.chunk_size >= 1,
            script.source_bytes@.len() <= u64::MAX,
        ensures
    // Finalization is unconditional and exact: once per run if and only
    // if a device handle was opened.

            r.finalize_count == if r.handle_opened {
                1u64
            } else {
                0u64
            },
            r.handle_opened == (!(script.cancel is BeforeStart) && !(script.cancel is AfterUnmount)
                && script.open_result is Ok),
            r.unmount_attempted == !(script.cancel is BeforeStart),
            // Whatever was written is a prefix of the source; a successful
            // job wrote all of it.
            r.device@ == script.source_bytes@.take(r.device@.len() as int),
            r.result@ is Succeeded ==> r.device@ == script.source_bytes@,
            // The status history only ever grows, and everything already
            // published stays as it was.
            final(chan).history().len() >= old(chan).history().len(),
            forall|i: int|
                0 <= i < old(chan).history().len() ==> final(chan).history()[i]
                    == old(chan).history()[i],
            // The terminal status is published exactly once, last, and only
            // for a success or a failure; a cancelled run publishes no
            // terminal status at all.
            forall|i: int|
                old(chan).history().len() <= i < final(chan).history().len() - 1 ==> !(
                #[trigger] final(chan).history()[i] is Done),
            (r.result@ is Succeeded || r.result@ is Failed) ==> final(chan).history().len()
                > old(chan).history().len() && final(chan).history().last() is Done,
            r.result@ is Succeeded ==> final(chan).history().last() == FlashStatus::Done(
                None::<String>,
            ),
            r.result@ matches JobResultView::Failed { error }
                ==> (final(chan).history().last() matches FlashStatus::Done(Some(m)) && m@
                == message_of(error)),
            r.result@ is Cancelled ==> forall|i: int|
                old(chan).history().len() <= i < final(chan).history().len() ==> !(
                #[trigger] final(chan).history()[i] is Done),
            // Fractions reported within a phase never decrease.
            copy_fractions_monotone(
                final(chan).history(),
                old(chan).history().len() as int,
                final(chan).history().len() as int,
            ),
            download_fractions_monotone(
                final(chan).history(),
                old(chan).history().len() as int,
                final(chan).history().len() as int,
            ),
            // A job cancelled before it started never touched anything and
            // published nothing.
            script.cancel is BeforeStart ==> r.result@ is Cancelled && r.device@.len() == 0
                && final(chan).history() == old(chan).history(),
            script.cancel is AfterUnmount ==> r.result@ is Cancelled && r.device@.len() == 0,
            // A denied exclusive open fails the job with the service's
            // detail, before anything is written.
            (!(script.cancel is BeforeStart) && !(script.cancel is AfterUnmount)) ==> (
            script.open_result matches Err(d) ==> (r.result@ == (JobResultView::Failed {
                error: ErrorView::DeviceUnavailable { details: d@ },
            }) && r.device@.len() == 0)),
            // Cancellation inside the resolver ends the job with nothing
            // written. A resolver failure takes precedence, as the stream
            // must exist before the flag is looked at again.
            (r.handle_opened && script.cancel is DuringResolve && resolve_succeeds(
                self@.source,
                script,
            )) ==> r.result@ is Cancelled && r.device@.len() == 0,
            // A remote source without a content length fails the job before
            // any byte reaches the device.
            (r.handle_opened && (self@.source
                matches SourceView::Online { .. }) && script.content_length is None) ==> (r.result@
                == (JobResultView::Failed {
                error: ErrorView::SourceUnavailable {
                    details: "the server did not report a total size"@,
                },
            }) && r.device@.len() == 0),
            // A failing decompressor fails the job with its captured
            // standard error, before any byte reaches the device.
            (r.handle_opened && (self@.source
                matches SourceView::Local { compression: Compression::Xz, .. })
                && !script.xz_exit_ok) ==> (r.result@ == (JobResultView::Failed {
                error: ErrorView::ExtractionFailed {
                    details: match script.xz_stderr {
                        Some(d) => Some(d@),
                        None => None,
                    },
                },
            }) && r.device@.len() == 0),
            // A missing raw local file fails the job with its detail.
            (r.handle_opened && (self@.source
                matches SourceView::Local { compression: Compression::Raw, .. })
                && !script.local_exists) ==> (r.result@ == (JobResultView::Failed {
                error: ErrorView::SourceUnavailable { details: script.local_error@ },
            }) && r.device@.len() == 0),
            // When the stream is handed over, the copy runs exactly the
            // chunked protocol: the result and the bytes on the device are
            // those of `copy_run`.
            (r.handle_opened && !(script.cancel is DuringResolve) && resolve_succeeds(
                self@.source,
                script,
            )) ==> ({
                let run = copy_run(
                    script.source_bytes@.len() as int,
                    script.chunk_size as int,
                    copy_cancel_of(script.cancel),
                    script.write_fail_at,
                    0,
                );
                r.result@ == job_result_of_copy(run.0) && r.device@.len() == run.1
            }),
            // Cancellation during the copy stops within one chunk of the
            // cancellation offset, and the job ends cancelled, not failed.
            r.result@ is Cancelled ==> (script.cancel matches CancelPoint::DuringCopy { at }
                ==> r.device@.len() < at + script.chunk_size),
            // On success the last report before the terminal status is the
            // full total over the size hint.
            r.result@ is Succeeded ==> final(chan).history().len() >= old(chan).history().len() + 2
                && final(chan).history()[final(chan).history().len() - 2]
                == FlashStatus::Active(
                FlashPhase::Copy,
                progress_of(script.source_bytes@.len() as u64, script_size(script)),
            ),
    {
        let ghost h0 = chan.history();
        let mut job = self;
        let mut device: Vec<u8> = Vec::new();

        // Created: read the flag once before doing anything at all.
        let start_cancelled = matches!(script.cancel, CancelPoint::BeforeStart);
        let action = job.step(JobEvent::Start { cancelled: start_cancelled });
        if start_cancelled {
            let result = match job.into_result() {
                Some(result) => result,
                None => unreached(),
            };
            return JobReport {
                result,
                device,
                handle_opened: false,
                finalize_count: 0,
                unmount_attempted: false,
            };
        }

        // Unmounting: walk every partition, classifying each reply; nothing
        // here can fail the job.
        match action {
            JobAction::UnmountAll => {},
            _ => unreached(),
        }
        let _outcomes = unmount_all_outcome(&script.unmount_replies);
        let unmount_cancelled = matches!(script.cancel, CancelPoint::AfterUnmount);
        let action = job.step(JobEvent::Unmounted { cancelled: unmount_cancelled });
        if unmount_cancelled {
            let result = match job.into_result() {
                Some(result) => result,
                None => unreached(),
            };
            return JobReport {
                result,
                device,
                handle_opened: false,
                finalize_count: 0,
                unmount_attempted: true,
            };
        }

        // Opening: a denied open is fatal, announced at once; no handle
        // exists, so there is nothing to finalize.
        match action {
            JobAction::OpenDevice => {},
            _ => unreached(),
        }
        let open_result: Result<(), String> = match &script.open_result {
            Ok(_) => Ok(()),
            Err(d) => Err(d.clone()),
        };
        let open_failed = open_result.is_err();
        let action = job.step(JobEvent::Opened { result: open_result });
        if open_failed {
            match action {
                JobAction::Announce { message } => {
                    chan.set(FlashStatus::Done(message));
                },
                _ => unreached(),
            }
            let result = match job.into_result() {
                Some(result) => result,
                None => unreached(),
            };
            return JobReport {
                result,
                device,
                handle_opened: false,
                finalize_count: 0,
                unmount_attempted: true,
            };
        }

        // Resolving: obtain the stream according to the source kind.
        match action {
            JobAction::ResolveSource => {},
            _ => unreached(),
        }
        let size: u64 = if script.size_known {
            script.source_bytes.len() as u64
        } else {
            0
        };
        let resolve_cancelled = matches!(script.cancel, CancelPoint::DuringResolve);
        let outcome: ResolveOutcome = match job.source() {
            DiskImage::Local { compression: Compression::Raw, .. } => {
                if script.local_exists {
                    ResolveOutcome::Resolved { size }
                } else {
                    ResolveOutcome::Failed {
                        error: FlashError::SourceUnavailable {
                            details: script.local_error.clone(),
                        },
                    }
                }
            },
            DiskImage::Local { compression: Compression::Xz, .. } => {
                chan.set(FlashStatus::Active(FlashPhase::Copy, Progress::Pulse));
                let stderr_copy = match &script.xz_stderr {
                    Some(d) => Some(d.clone()),
                    None => None,
                };
                match extract_result(script.xz_exit_ok, stderr_copy) {
                    Ok(_) => ResolveOutcome::Resolved { size },
                    Err(error) => ResolveOutcome::Failed { error },
                }
            },
            DiskImage::Online { .. } => {
                match DownloadTracker::new(script.content_length) {
                    Err(error) => ResolveOutcome::Failed { error },
                    Ok(fresh_tracker) => {
                        let mut tracker = fresh_tracker;
                        let mut pos: usize = 0;
                        let mut dl_cancelled = false;
                        while pos < script.source_bytes.len() && !dl_cancelled
                            invariant
                                tracker.wf(),
                                pos <= script.source_bytes@.len(),
                                script.chunk_size >= 1,
                                dl_cancelled ==> resolve_cancelled,
                                chan.history().len() >= h0.len(),
                                forall|i: int|
                                    0 <= i < h0.len() ==> #[trigger] chan.history()[i] == h0[i],
                                forall|i: int|
                                    h0.len() <= i < chan.history().len() ==> !(
                                    #[trigger] chan.history()[i] is Done) && copy_fraction_num(
                                        chan.history()[i],
                                    ) is None && download_frac_at_most(
                                        chan.history()[i],
                                        tracker.downloaded as int,
                                    ),
                                download_fractions_monotone(
                                    chan.history(),
                                    h0.len() as int,
                                    chan.history().len() as int,
                                ),
                            decreases
                                    (if dl_cancelled {
                                        0int
                                    } else {
                                        1int
                                    }),
                                    script.source_bytes@.len() - pos,
                        {
                            let remaining = script.source_bytes.len() - pos;
                            let n = if remaining < script.chunk_size {
                                remaining
                            } else {
                                script.chunk_size
                            };
                            match tracker.on_chunk(n as u64, resolve_cancelled, true) {
                                DownloadStep::Cancel => {
                                    dl_cancelled = true;
                                },
                                DownloadStep::Publish { status } => {
                                    chan.set(status);
                                    pos = pos + n;
                                },
                                DownloadStep::Continue => {
                                    pos = pos + n;
                                },
                            }
                        }
                        if dl_cancelled {
                            ResolveOutcome::Cancelled
                        } else {
                            ResolveOutcome::Resolved { size }
                        }
                    },
                }
            },
        };
        let action = job.step(JobEvent::Resolved { outcome, cancelled: resolve_cancelled });

        // Copying, when the stream was handed over and the flag still held.
        let action = match action {
            JobAction::CopySource { size: copy_size } => {
                let copy_cancel_at = match script.cancel {
                    CancelPoint::DuringCopy { at } => Some(at),
                    _ => None,
                };
                let copy_outcome = copy_simulated(
                    &script.source_bytes,
                    script.chunk_size,
                    copy_size,
                    copy_cancel_at,
                    script.write_fail_at,
                    &mut device,
                    chan,
                );
                job.step(JobEvent::Copied { outcome: copy_outcome })
            },
            JobAction::Finalize => JobAction::Finalize,
            _ => unreached(),
        };

        // Finalizing: rescan and eject, whatever happened since the handle
        // was opened; then, and only then, the terminal status.
        match action {
            JobAction::Finalize => {},
            _ => unreached(),
        }
        let action = job.step(JobEvent::Finalized);
        match action {
            JobAction::Announce { message } => {
                chan.set(FlashStatus::Done(message));
            },
            JobAction::Rest => {},
            _ => unreached(),
        }
        let result = match job.into_result() {
            Some(result) => result,
            None => unreached(),
        };
        JobReport { result, device, handle_opened: true, finalize_count: 1, unmount_attempted: true }
    }
}

} // verus!
