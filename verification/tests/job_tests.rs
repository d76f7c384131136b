//! Tests for the job machine and whole simulated runs: the ordered phases,
//! unconditional finalization, terminal announcements, and the scenarios a
//! flash job must get right.

use impression::device::{unmount_all_outcome, unmount_outcome, UnmountOutcome, UnmountReply};
use impression::errors::{error_message, FlashError};
use impression::job::{FlashRequest, JobAction, JobEvent, JobResult, ResolveOutcome};
use impression::progress::{FlashPhase, FlashStatus, Progress, ProgressChannel};
use impression::resolver::{Compression, DiskImage};
use impression::sim::{CancelPoint, JobReport, JobScript};
use impression::transfer::CopyOutcome;

fn pattern(len: usize) -> Vec<u8> {
    let mut v = Vec::with_capacity(len);
    for i in 0..len {
        v.push((i % 251) as u8);
    }
    v
}

fn local_raw() -> DiskImage {
    DiskImage::Local {
        path: "/images/distro.iso".to_string(),
        compression: Compression::Raw,
    }
}

fn happy_script(bytes: Vec<u8>) -> JobScript {
    JobScript {
        unmount_replies: vec![UnmountReply::Unmounted, UnmountReply::NotMounted],
        open_result: Ok(()),
        local_exists: true,
        local_error: String::new(),
        xz_exit_ok: true,
        xz_stderr: None,
        content_length: None,
        source_bytes: bytes,
        size_known: true,
        chunk_size: 256 * 1024,
        write_fail_at: None,
        cancel: CancelPoint::Never,
    }
}

fn fresh_channel() -> ProgressChannel {
    ProgressChannel::new(FlashStatus::Active(FlashPhase::Copy, Progress::from((0, 1))))
}

fn run(source: DiskImage, script: &JobScript) -> (JobReport, ProgressChannel) {
    let mut chan = fresh_channel();
    let report = FlashRequest::new(source).perform(script, &mut chan);
    (report, chan)
}

#[test]
fn raw_local_round_trip() {
    // A 10 MiB patterned file flashed onto a simulated device reproduces
    // the source byte for byte and ends with a silent success announcement.
    let bytes = pattern(10 * 1024 * 1024);
    let script = happy_script(bytes.clone());
    let (report, chan) = run(local_raw(), &script);
    assert!(matches!(report.result, JobResult::Succeeded));
    assert_eq!(report.device, bytes);
    assert!(report.handle_opened);
    assert_eq!(report.finalize_count, 1);
    assert!(report.unmount_attempted);
    assert!(matches!(chan.get(), FlashStatus::Done(None)));
}

#[test]
fn failing_extraction_reports_its_stderr() {
    // The decompressor exits with code 1 and "bad magic" on standard error:
    // the job fails with that detail and nothing reaches the device.
    let mut script = happy_script(pattern(1024));
    script.xz_exit_ok = false;
    script.xz_stderr = Some("bad magic".to_string());
    let source = DiskImage::Local {
        path: "/images/distro.img.xz".to_string(),
        compression: Compression::Xz,
    };
    let (report, chan) = run(source, &script);
    match &report.result {
        JobResult::Failed { error: FlashError::ExtractionFailed { details } } => {
            assert_eq!(details.as_deref(), Some("bad magic"));
        }
        _ => panic!("a failing decompressor must fail the job"),
    }
    assert!(report.device.is_empty());
    assert_eq!(report.finalize_count, 1);
    match chan.get() {
        FlashStatus::Done(Some(message)) => assert!(message.contains("bad magic")),
        _ => panic!("the failure must be announced"),
    }
}

#[test]
fn missing_content_length_fails_before_any_write() {
    let mut script = happy_script(pattern(1024));
    script.content_length = None;
    let source = DiskImage::Online {
        url: "https://example.org/distro.iso".to_string(),
        name: "distro".to_string(),
    };
    let (report, chan) = run(source, &script);
    match &report.result {
        JobResult::Failed { error: FlashError::SourceUnavailable { details } } => {
            assert!(details.contains("total size"));
        }
        _ => panic!("a server without a content length must fail the job"),
    }
    assert!(report.device.is_empty());
    assert_eq!(report.finalize_count, 1);
    match chan.get() {
        FlashStatus::Done(Some(message)) => assert!(message.contains("total size")),
        _ => panic!("the failure must be announced"),
    }
}

#[test]
fn remote_download_then_copy_round_trip() {
    let bytes = pattern(1024 * 1024);
    let mut script = happy_script(bytes.clone());
    script.content_length = Some(bytes.len() as u64);
    let source = DiskImage::Online {
        url: "https://example.org/distro.iso".to_string(),
        name: "distro".to_string(),
    };
    let (report, chan) = run(source, &script);
    assert!(matches!(report.result, JobResult::Succeeded));
    assert_eq!(report.device, bytes);
    assert!(matches!(chan.get(), FlashStatus::Done(None)));
}

#[test]
fn cancellation_at_half_of_a_large_copy() {
    // The flag clears at 50% of a 100 MiB copy: the job ends cancelled, not
    // failed, finalizes exactly once, and announces nothing.
    let len = 100 * 1024 * 1024;
    let mut script = happy_script(pattern(len));
    script.cancel = CancelPoint::DuringCopy { at: (len / 2) as u64 };
    let (report, chan) = run(local_raw(), &script);
    assert!(matches!(report.result, JobResult::Cancelled));
    assert_eq!(report.finalize_count, 1);
    assert!(report.handle_opened);
    assert!(report.device.len() < len / 2 + script.chunk_size);
    assert_eq!(&report.device[..], &script.source_bytes[..report.device.len()]);
    assert!(matches!(chan.get(), FlashStatus::Active(_, _)));
}

#[test]
fn cancellation_before_start_touches_nothing() {
    let mut script = happy_script(pattern(1024));
    script.cancel = CancelPoint::BeforeStart;
    let (report, chan) = run(local_raw(), &script);
    assert!(matches!(report.result, JobResult::Cancelled));
    assert!(!report.unmount_attempted);
    assert!(!report.handle_opened);
    assert_eq!(report.finalize_count, 0);
    assert!(report.device.is_empty());
    assert!(matches!(chan.get(), FlashStatus::Active(_, _)));
}

#[test]
fn cancellation_after_unmount_skips_the_open() {
    let mut script = happy_script(pattern(1024));
    script.cancel = CancelPoint::AfterUnmount;
    let (report, _chan) = run(local_raw(), &script);
    assert!(matches!(report.result, JobResult::Cancelled));
    assert!(report.unmount_attempted);
    assert!(!report.handle_opened);
    assert_eq!(report.finalize_count, 0);
}

#[test]
fn denied_open_fails_without_finalize() {
    let mut script = happy_script(pattern(1024));
    script.open_result = Err("device is busy".to_string());
    let (report, chan) = run(local_raw(), &script);
    match &report.result {
        JobResult::Failed { error: FlashError::DeviceUnavailable { details } } => {
            assert_eq!(details, "device is busy");
        }
        _ => panic!("a denied open must fail the job"),
    }
    assert!(!report.handle_opened);
    assert_eq!(report.finalize_count, 0);
    match chan.get() {
        FlashStatus::Done(Some(message)) => assert!(message.contains("device is busy")),
        _ => panic!("the failure must be announced"),
    }
}

#[test]
fn missing_local_file_fails_the_job() {
    let mut script = happy_script(pattern(1024));
    script.local_exists = false;
    script.local_error = "no such file".to_string();
    let (report, chan) = run(local_raw(), &script);
    match &report.result {
        JobResult::Failed { error: FlashError::SourceUnavailable { details } } => {
            assert_eq!(details, "no such file");
        }
        _ => panic!("a missing source must fail the job"),
    }
    assert_eq!(report.finalize_count, 1);
    assert!(matches!(chan.get(), FlashStatus::Done(Some(_))));
}

#[test]
fn write_failure_still_finalizes_once() {
    // The device rejects the very first write: the job fails with an I/O
    // failure, and the device is still rescanned and ejected exactly once.
    let mut script = happy_script(pattern(4096));
    script.write_fail_at = Some(0);
    let (report, chan) = run(local_raw(), &script);
    match &report.result {
        JobResult::Failed { error: FlashError::IoFailure { details } } => {
            assert!(details.contains("writing"));
        }
        _ => panic!("a failing write must fail the job"),
    }
    assert!(report.device.is_empty());
    assert_eq!(report.finalize_count, 1);
    match chan.get() {
        FlashStatus::Done(Some(message)) => assert!(message.contains("writing")),
        _ => panic!("the failure must be announced"),
    }
}

#[test]
fn cancellation_during_resolve_is_silent() {
    let bytes = pattern(1024 * 1024);
    let mut script = happy_script(bytes.clone());
    script.content_length = Some(bytes.len() as u64);
    script.cancel = CancelPoint::DuringResolve;
    let source = DiskImage::Online {
        url: "https://example.org/distro.iso".to_string(),
        name: "distro".to_string(),
    };
    let (report, chan) = run(source, &script);
    assert!(matches!(report.result, JobResult::Cancelled));
    assert!(report.device.is_empty());
    assert_eq!(report.finalize_count, 1);
    assert!(matches!(chan.get(), FlashStatus::Active(_, _)));
}

#[test]
fn resolver_failure_wins_over_cancellation() {
    // The stream must exist before the flag is looked at again, so a failing
    // decompressor fails the job even when cancellation arrives meanwhile.
    let mut script = happy_script(pattern(1024));
    script.xz_exit_ok = false;
    script.xz_stderr = Some("bad magic".to_string());
    script.cancel = CancelPoint::DuringResolve;
    let source = DiskImage::Local {
        path: "/images/distro.img.xz".to_string(),
        compression: Compression::Xz,
    };
    let (report, _chan) = run(source, &script);
    assert!(matches!(
        report.result,
        JobResult::Failed { error: FlashError::ExtractionFailed { .. } }
    ));
    assert_eq!(report.finalize_count, 1);
}

#[test]
fn unknown_size_still_copies_everything() {
    let bytes = pattern(4096);
    let mut script = happy_script(bytes.clone());
    script.size_known = false;
    let (report, chan) = run(local_raw(), &script);
    assert!(matches!(report.result, JobResult::Succeeded));
    assert_eq!(report.device, bytes);
    assert!(matches!(chan.get(), FlashStatus::Done(None)));
}

#[test]
fn unmount_replies_are_never_fatal() {
    // An already-unmounted partition counts as success; any other failure is
    // advisory and the walk goes on over all partitions.
    assert!(matches!(
        unmount_outcome(&UnmountReply::NotMounted),
        UnmountOutcome::Success
    ));
    assert!(matches!(
        unmount_outcome(&UnmountReply::Unmounted),
        UnmountOutcome::Success
    ));
    match unmount_outcome(&UnmountReply::Failed { details: "target is busy".to_string() }) {
        UnmountOutcome::Advisory { details } => assert_eq!(details, "target is busy"),
        _ => panic!("other unmount failures are advisory, not fatal"),
    }

    let replies = vec![
        UnmountReply::NotMounted,
        UnmountReply::Failed { details: "busy".to_string() },
        UnmountReply::Unmounted,
    ];
    let outcomes = unmount_all_outcome(&replies);
    assert_eq!(outcomes.len(), 3);
    assert!(matches!(outcomes[0], UnmountOutcome::Success));
    assert!(matches!(outcomes[1], UnmountOutcome::Advisory { .. }));
    assert!(matches!(outcomes[2], UnmountOutcome::Success));
}

#[test]
fn unmount_failures_do_not_abort_a_run() {
    let bytes = pattern(1024);
    let mut script = happy_script(bytes.clone());
    script.unmount_replies = vec![
        UnmountReply::Failed { details: "busy".to_string() },
        UnmountReply::NotMounted,
    ];
    let (report, _chan) = run(local_raw(), &script);
    assert!(matches!(report.result, JobResult::Succeeded));
    assert_eq!(report.device, bytes);
}

#[test]
fn machine_walks_the_phases_in_order() {
    let mut job = FlashRequest::new(local_raw());
    assert!(matches!(
        job.step(JobEvent::Start { cancelled: false }),
        JobAction::UnmountAll
    ));
    assert!(matches!(
        job.step(JobEvent::Unmounted { cancelled: false }),
        JobAction::OpenDevice
    ));
    assert!(matches!(
        job.step(JobEvent::Opened { result: Ok(()) }),
        JobAction::ResolveSource
    ));
    assert!(matches!(
        job.step(JobEvent::Resolved {
            outcome: ResolveOutcome::Resolved { size: 4096 },
            cancelled: false
        }),
        JobAction::CopySource { size: 4096 }
    ));
    assert!(matches!(
        job.step(JobEvent::Copied { outcome: CopyOutcome::Success }),
        JobAction::Finalize
    ));
    assert!(matches!(
        job.step(JobEvent::Finalized),
        JobAction::Announce { message: None }
    ));
    assert!(matches!(job.into_result(), Some(JobResult::Succeeded)));
}

#[test]
fn machine_turns_a_read_failure_into_an_io_failure() {
    let mut job = FlashRequest::new(local_raw());
    job.step(JobEvent::Start { cancelled: false });
    job.step(JobEvent::Unmounted { cancelled: false });
    job.step(JobEvent::Opened { result: Ok(()) });
    job.step(JobEvent::Resolved {
        outcome: ResolveOutcome::Resolved { size: 4096 },
        cancelled: false,
    });
    let action = job.step(JobEvent::Copied {
        outcome: CopyOutcome::ReadFailed { details: "input/output error".to_string() },
    });
    assert!(matches!(action, JobAction::Finalize));
    match job.step(JobEvent::Finalized) {
        JobAction::Announce { message: Some(message) } => {
            assert!(message.contains("input/output error"));
        }
        _ => panic!("a read failure must be announced"),
    }
    match job.into_result() {
        Some(JobResult::Failed { error: FlashError::IoFailure { details } }) => {
            assert_eq!(details, "input/output error");
        }
        _ => panic!("a read failure is an I/O failure of the job"),
    }
}

#[test]
fn machine_finalizes_after_cancelled_resolve() {
    let mut job = FlashRequest::new(local_raw());
    job.step(JobEvent::Start { cancelled: false });
    job.step(JobEvent::Unmounted { cancelled: false });
    job.step(JobEvent::Opened { result: Ok(()) });
    let action = job.step(JobEvent::Resolved {
        outcome: ResolveOutcome::Cancelled,
        cancelled: true,
    });
    assert!(matches!(action, JobAction::Finalize));
    assert!(matches!(job.step(JobEvent::Finalized), JobAction::Rest));
    assert!(matches!(job.into_result(), Some(JobResult::Cancelled)));
}

#[test]
fn error_messages_are_distinct_and_carry_details() {
    let source = error_message(&FlashError::SourceUnavailable { details: "gone".to_string() });
    let extract = error_message(&FlashError::ExtractionFailed {
        details: Some("bad magic".to_string()),
    });
    let extract_silent = error_message(&FlashError::ExtractionFailed { details: None });
    let device = error_message(&FlashError::DeviceUnavailable { details: "busy".to_string() });
    let io = error_message(&FlashError::IoFailure { details: "short write".to_string() });
    for message in [&source, &extract, &extract_silent, &device, &io] {
        assert!(!message.is_empty());
    }
    assert!(source.contains("gone") && source.contains("source image"));
    assert!(extract.contains("bad magic") && extract.contains("extraction"));
    assert!(extract_silent.contains("extraction"));
    assert!(device.contains("busy") && device.contains("destination drive"));
    assert!(io.contains("short write") && io.contains("writing"));
    assert!(source != device && extract != io);
}
