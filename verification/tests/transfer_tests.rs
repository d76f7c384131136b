//! Tests for the copy engine: the per-chunk decisions, the in-memory run,
//! and the resolver's accounting.

use impression::errors::FlashError;
use impression::progress::{FlashPhase, FlashStatus, Progress, ProgressChannel};
use impression::resolver::{
    base_name, download_path, resolve_plan, xz_output_path, Compression, DiskImage, DownloadStep,
    DownloadTracker, ResolvePlan,
};
use impression::transfer::{copy_simulated, CopyOutcome, CopyTracker, ReadStep, WriteStep};

fn fresh_channel() -> ProgressChannel {
    ProgressChannel::new(FlashStatus::Active(FlashPhase::Copy, Progress::from((0, 1))))
}

fn pattern(len: usize) -> Vec<u8> {
    let mut v = Vec::with_capacity(len);
    for i in 0..len {
        v.push((i % 251) as u8);
    }
    v
}

#[test]
fn copy_reproduces_source_exactly() {
    let source = pattern(10 * 1024 * 1024);
    let mut device = Vec::new();
    let mut chan = fresh_channel();
    let outcome = copy_simulated(
        &source,
        256 * 1024,
        source.len() as u64,
        None,
        None,
        &mut device,
        &mut chan,
    );
    assert!(matches!(outcome, CopyOutcome::Success));
    assert_eq!(device, source);
}

#[test]
fn copy_with_ragged_last_chunk() {
    let source = pattern(1000);
    let mut device = Vec::new();
    let mut chan = fresh_channel();
    let outcome = copy_simulated(&source, 256, 1000, None, None, &mut device, &mut chan);
    assert!(matches!(outcome, CopyOutcome::Success));
    assert_eq!(device, source);
}

#[test]
fn copy_of_empty_source_succeeds() {
    let source: Vec<u8> = Vec::new();
    let mut device = Vec::new();
    let mut chan = fresh_channel();
    let outcome = copy_simulated(&source, 64, 0, None, None, &mut device, &mut chan);
    assert!(matches!(outcome, CopyOutcome::Success));
    assert!(device.is_empty());
}

#[test]
fn cancellation_stops_within_one_chunk() {
    let source = pattern(100_000);
    let mut device = Vec::new();
    let mut chan = fresh_channel();
    let outcome = copy_simulated(
        &source,
        1024,
        100_000,
        Some(50_000),
        None,
        &mut device,
        &mut chan,
    );
    assert!(matches!(outcome, CopyOutcome::Cancelled));
    assert!(device.len() < 50_000 + 1024);
    assert_eq!(&device[..], &source[..device.len()]);
}

#[test]
fn cancellation_at_offset_zero_writes_nothing() {
    let source = pattern(4096);
    let mut device = Vec::new();
    let mut chan = fresh_channel();
    let outcome = copy_simulated(&source, 512, 4096, Some(0), None, &mut device, &mut chan);
    assert!(matches!(outcome, CopyOutcome::Cancelled));
    assert!(device.is_empty());
}

#[test]
fn write_failure_stops_the_copy() {
    let source = pattern(4096);
    let mut device = Vec::new();
    let mut chan = fresh_channel();
    let outcome = copy_simulated(&source, 512, 4096, None, Some(1024), &mut device, &mut chan);
    assert!(matches!(outcome, CopyOutcome::WriteFailed));
    assert_eq!(device.len(), 1024);
    assert_eq!(&device[..], &source[..1024]);
}

#[test]
fn copy_tracker_decisions() {
    let tracker = CopyTracker::new(100);
    assert!(matches!(tracker.on_read(10, true), ReadStep::Cancel));
    assert!(matches!(tracker.on_read(0, false), ReadStep::Finish));
    assert!(matches!(tracker.on_read(10, false), ReadStep::Write));

    let mut tracker = CopyTracker::new(100);
    match tracker.on_written(40, false, true) {
        WriteStep::Publish { status } => {
            assert!(matches!(
                status,
                FlashStatus::Active(FlashPhase::Copy, Progress::Fraction { num: 40, den: 100 })
            ));
        }
        _ => panic!("expected a publication"),
    }
    assert!(matches!(tracker.on_written(10, false, false), WriteStep::Continue));
    assert!(matches!(tracker.on_written(10, true, true), WriteStep::Cancel));
    assert_eq!(tracker.total, 60);
}

#[test]
fn download_tracker_requires_content_length() {
    match DownloadTracker::new(None) {
        Err(FlashError::SourceUnavailable { details }) => {
            assert!(details.contains("total size"));
        }
        _ => panic!("a missing content length must fail the resolve"),
    }
}

#[test]
fn download_tracker_clamps_to_total() {
    let mut tracker = DownloadTracker::new(Some(10)).unwrap();
    match tracker.on_chunk(8, false, true) {
        DownloadStep::Publish { status } => {
            assert!(matches!(
                status,
                FlashStatus::Active(
                    FlashPhase::Download,
                    Progress::Fraction { num: 8, den: 10 }
                )
            ));
        }
        _ => panic!("expected a publication"),
    }
    match tracker.on_chunk(5, false, true) {
        DownloadStep::Publish { status } => {
            assert!(matches!(
                status,
                FlashStatus::Active(
                    FlashPhase::Download,
                    Progress::Fraction { num: 10, den: 10 }
                )
            ));
        }
        _ => panic!("expected a publication"),
    }
    assert_eq!(tracker.downloaded, 10);
    assert!(matches!(tracker.on_chunk(1, true, true), DownloadStep::Cancel));
    assert!(matches!(tracker.on_chunk(1, false, false), DownloadStep::Continue));
}

#[test]
fn base_name_takes_what_follows_the_last_slash() {
    assert_eq!(base_name("/home/user/fedora.iso"), "fedora.iso");
    assert_eq!(base_name("fedora.iso"), "fedora.iso");
    assert_eq!(base_name("/ends/with/slash/"), "");
    assert_eq!(base_name(""), "");
}

#[test]
fn extraction_and_download_paths() {
    assert_eq!(
        xz_output_path("/home/user/.cache", "/images/distro.img.xz"),
        "/home/user/.cache/distro.img.xz"
    );
    assert_eq!(
        xz_output_path("/home/user/.cache", "/images/"),
        "/home/user/.cache/disk_image.iso"
    );
    assert_eq!(
        download_path("/home/user/.cache", "fedora-41"),
        "/home/user/.cache/fedora-41.iso"
    );
}

#[test]
fn resolve_plans_by_source_kind() {
    let raw = DiskImage::Local {
        path: "/images/a.iso".to_string(),
        compression: Compression::Raw,
    };
    match resolve_plan(&raw, "/cache") {
        ResolvePlan::OpenLocal { path } => assert_eq!(path, "/images/a.iso"),
        _ => panic!("a raw local file is opened directly"),
    }

    let xz = DiskImage::Local {
        path: "/images/b.img.xz".to_string(),
        compression: Compression::Xz,
    };
    match resolve_plan(&xz, "/cache") {
        ResolvePlan::ExtractXz { input, output, announce } => {
            assert_eq!(input, "/images/b.img.xz");
            assert_eq!(output, "/cache/b.img.xz");
            assert!(matches!(
                announce,
                FlashStatus::Active(FlashPhase::Copy, Progress::Pulse)
            ));
        }
        _ => panic!("a compressed local file is extracted"),
    }

    let online = DiskImage::Online {
        url: "https://example.org/c.iso".to_string(),
        name: "distro-c".to_string(),
    };
    match resolve_plan(&online, "/cache") {
        ResolvePlan::Download { url, destination } => {
            assert_eq!(url, "https://example.org/c.iso");
            assert_eq!(destination, "/cache/distro-c.iso");
        }
        _ => panic!("a remote image is downloaded first"),
    }
}
