//! Turning a logical image reference into a plan for obtaining a readable
//! byte stream: open a local file directly, decompress through an external
//! process into the cache, or download into the cache. The surrounding
//! process executes the plan; every decision about paths, required totals,
//! progress accounting and exit-code classification is made and verified
//! here.

use vstd::prelude::*;
use vstd::string::StringExecFns;
use vstd::string::StrSliceExecFns;
use crate::errors::{ErrorView, FlashError};
use crate::progress::{FlashPhase, FlashStatus, Progress, progress_of};

verus! {

/// How a local image file is compressed.
#[derive(Clone, Copy, Debug, PartialEq, Eq, Structural)]
pub enum Compression {
    Raw,
    Xz,
}

/// A logical reference to the image to be written: a local file with its
/// compression, or a remote image that is downloaded into the cache before
/// the copy begins.
#[derive(Debug)]
pub enum DiskImage {
    Local { path: String, compression: Compression },
    Online { url: String, name: String },
}

/// The mathematical shape of a `DiskImage`.
pub enum SourceView {
    Local { path: Seq<char>, compression: Compression },
    Online { url: Seq<char>, name: Seq<char> },
}

impl View for DiskImage {
    type V = SourceView;

    open spec fn view(&self) -> SourceView {
        match self {
            DiskImage::Local { path, compression } => SourceView::Local {
                path: path@,
                compression: *compression,
            },
            DiskImage::Online { url, name } => SourceView::Online { url: url@, name: name@ },
        }
    }
}

impl Clone for DiskImage {
    fn clone(&self) -> (r: Self)
        ensures
            r@ == self@,
    {
        match self {
            DiskImage::Local { path, compression } => DiskImage::Local {
                path: path.clone(),
                compression: *compression,
            },
            DiskImage::Online { url, name } => DiskImage::Online {
                url: url.clone(),
                name: name.clone(),
            },
        }
    }
}

/// The characters of `s` after its last `/`; all of `s` when it has none.
pub open spec fn after_last_slash(s: Seq<char>) -> Seq<char>
    decreases s.len(),
{
    if s.len() == 0 {
        s
    } else if s.last() == '/' {
        Seq::empty()
    } else {
        after_last_slash(s.drop_last()).push(s.last())
    }
}

proof fn lemma_after_last_slash(s: Seq<char>, cut: int)
    requires
        0 <= cut <= s.len(),
        forall|j: int| cut <= j < s.len() ==> s[j] != '/',
        cut > 0 ==> s[cut - 1] == '/',
    ensures
        after_last_slash(s) =~= s.subrange(cut, s.len() as int),
    decreases s.len(),
{
    if s.len() == 0 {
    } else if s.last() == '/' {
        assert(cut == s.len());
    } else {
        assert(cut < s.len());
        lemma_after_last_slash(s.drop_last(), cut);
    }
}

/// The file name of a path: what follows its last `/`. Used to derive the
/// name of the decompressed copy inside the cache directory.
pub fn base_name<'a>(path: &'a str) -> (r: &'a str)
    ensures
        r@ == after_last_slash(path@),
{
    let n = path.unicode_len();
    let mut cut: usize = n;
    let mut found = false;
    while cut > 0 && !found
        invariant
            cut <= n,
            n == path@.len(),
            forall|j: int| cut <= j < n ==> path@[j] != '/',
            found ==> cut > 0 && path@[cut - 1] == '/',
        decreases (if found { 0int } else { 1int }), cut,
    {
        if path.get_char(cut - 1) == '/' {
            found = true;
        } else {
            cut = cut - 1;
        }
    }
    proof {
        lemma_after_last_slash(path@, cut as int);
    }
    path.substring_char(cut, n)
}

/// The cache path a compressed image is extracted to: the source's file name
/// inside the cache directory, with a fixed fallback name when the source
/// path has no file name of its own.
pub open spec fn xz_output_of(cache_dir: Seq<char>, source_path: Seq<char>) -> Seq<char> {
    let base = after_last_slash(source_path);
    if base.len() == 0 {
        cache_dir + "/"@ + "disk_image.iso"@
    } else {
        cache_dir + "/"@ + base
    }
}

/// Derives the extraction target path for a compressed local image.
pub fn xz_output_path(cache_dir: &str, source_path: &str) -> (r: String)
    ensures
        r@ == xz_output_of(cache_dir@, source_path@),
{
    let base = base_name(source_path);
    let chosen = if base.is_empty() {
        "disk_image.iso"
    } else {
        base
    };
    String::from_str(cache_dir).concat("/").concat(chosen)
}

/// The cache path a remote image is downloaded to: the image's name with an
/// `.iso` suffix inside the cache directory.
pub open spec fn download_destination_of(cache_dir: Seq<char>, name: Seq<char>) -> Seq<char> {
    cache_dir + "/"@ + name + ".iso"@
}

/// Derives the download target path for a remote image.
pub fn download_path(cache_dir: &str, name: &str) -> (r: String)
    ensures
        r@ == download_destination_of(cache_dir@, name@),
{
    String::from_str(cache_dir).concat("/").concat(name).concat(".iso")
}

/// What the surrounding process must do to produce a readable stream for a
/// source.
#[derive(Debug)]
pub enum ResolvePlan {
    /// Open the file at `path` directly.
    OpenLocal { path: String },
    /// Announce indeterminate progress, then run the external decompressor
    /// from `input` to `output` and reopen `output` on success.
    ExtractXz { input: String, output: String, announce: FlashStatus },
    /// Create `destination`, stream the body of `url` into it, flush and
    /// sync it, and reopen it.
    Download { url: String, destination: String },
}

/// The mathematical shape of a `ResolvePlan`.
pub enum ResolvePlanView {
    OpenLocal { path: Seq<char> },
    ExtractXz { input: Seq<char>, output: Seq<char>, announce: FlashStatus },
    Download { url: Seq<char>, destination: Seq<char> },
}

impl View for ResolvePlan {
    type V = ResolvePlanView;

    open spec fn view(&self) -> ResolvePlanView {
        match self {
            ResolvePlan::OpenLocal { path } => ResolvePlanView::OpenLocal { path: path@ },
            ResolvePlan::ExtractXz { input, output, announce } => ResolvePlanView::ExtractXz {
                input: input@,
                output: output@,
                announce: *announce,
            },
            ResolvePlan::Download { url, destination } => ResolvePlanView::Download {
                url: url@,
                destination: destination@,
            },
        }
    }
}

/// The plan each source kind resolves to.
pub open spec fn plan_of(source: SourceView, cache_dir: Seq<char>) -> ResolvePlanView {
    match source {
        SourceView::Local { path, compression: Compression::Raw } => ResolvePlanView::OpenLocal {
            path,
        },
        SourceView::Local { path, compression: Compression::Xz } => ResolvePlanView::ExtractXz {
            input: path,
            output: xz_output_of(cache_dir, path),
            announce: FlashStatus::Active(FlashPhase::Copy, Progress::Pulse),
        },
        SourceView::Online { url, name } => ResolvePlanView::Download {
            url,
            destination: download_destination_of(cache_dir, name),
        },
    }
}

/// Decides how to obtain a readable stream for `source`, with intermediate
/// files placed in `cache_dir`. The source kinds form a closed set and each
/// is handled explicitly.
pub fn resolve_plan(source: &DiskImage, cache_dir: &str) -> (r: ResolvePlan)
    ensures
        r@ == plan_of(source@, cache_dir@),
{
    match source {
        DiskImage::Local { path, compression: Compression::Raw } => ResolvePlan::OpenLocal {
            path: path.clone(),
        },
        DiskImage::Local { path, compression: Compression::Xz } => ResolvePlan::ExtractXz {
            input: path.clone(),
            output: xz_output_path(cache_dir, path.as_str()),
            announce: FlashStatus::Active(FlashPhase::Copy, Progress::Pulse),
        },
        DiskImage::Online { url, name } => ResolvePlan::Download {
            url: url.clone(),
            destination: download_path(cache_dir, name.as_str()),
        },
    }
}

/// Classifies the exit of the external decompression process: exit code zero
/// is success, anything else fails the job with the captured standard-error
/// text as detail.
pub fn extract_result(exit_ok: bool, stderr: Option<String>) -> (r: Result<(), FlashError>)
    ensures
        exit_ok ==> r is Ok,
        !exit_ok ==> (r matches Err(e) && e@ == (ErrorView::ExtractionFailed {
            details: match stderr {
                Some(d) => Some(d@),
                None => None::<Seq<char>>,
            },
        })),
{
    if exit_ok {
        Ok(())
    } else {
        Err(FlashError::ExtractionFailed { details: stderr })
    }
}

/// The number of the fraction a download status carries, when it is one.
pub open spec fn download_fraction_num(s: FlashStatus) -> Option<u64> {
    match s {
        FlashStatus::Active(FlashPhase::Download, Progress::Fraction { num, den: _ }) => Some(num),
        _ => None,
    }
}

/// Two statuses in publication order report non-decreasing download
/// fractions, when both report one.
pub open spec fn download_frac_le(a: FlashStatus, b: FlashStatus) -> bool {
    match (download_fraction_num(a), download_fraction_num(b)) {
        (Some(x), Some(y)) => x <= y,
        _ => true,
    }
}

/// Every pair of entries of `h` between `from` and `to` reports
/// non-decreasing download fractions.
pub open spec fn download_fractions_monotone(h: Seq<FlashStatus>, from: int, to: int) -> bool {
    forall|i: int, j: int| from <= i <= j < to ==> #[trigger] download_frac_le(h[i], h[j])
}

/// The download fraction `s` carries, when it carries one, is at most
/// `bound`.
pub open spec fn download_frac_at_most(s: FlashStatus, bound: int) -> bool {
    match download_fraction_num(s) {
        Some(x) => x <= bound,
        None => true,
    }
}

/// What the download loop should do after one body chunk has been written to
/// the cache file.
pub enum DownloadStep {
    /// The cancellation flag was observed cleared: stop downloading.
    Cancel,
    /// Publish this status (the throttle interval has elapsed).
    Publish { status: FlashStatus },
    /// Keep downloading without publishing.
    Continue,
}

/// Progress accounting for the download phase. A download requires the
/// server to report a total size up front: progress reporting is a hard
/// requirement for remote sources, not best effort.
pub struct DownloadTracker {
    /// Bytes written to the cache file so far, clamped to the total.
    pub downloaded: u64,
    /// The total size the server reported.
    pub total: u64,
}

impl DownloadTracker {
    pub open spec fn wf(self) -> bool {
        self.downloaded <= self.total
    }

    /// Starts accounting for a response, or fails the job when the server
    /// did not report a content length.
    pub fn new(content_length: Option<u64>) -> (r: Result<Self, FlashError>)
        ensures
            match content_length {
                Some(t) => r matches Ok(tracker) && tracker == (DownloadTracker {
                    downloaded: 0,
                    total: t,
                }) && tracker.wf(),
                None => r matches Err(e) && e@ == (ErrorView::SourceUnavailable {
                    details: "the server did not report a total size"@,
                }),
            },
    {
        match content_length {
            Some(t) => Ok(DownloadTracker { downloaded: 0, total: t }),
            None => Err(FlashError::SourceUnavailable {
                details: String::from_str("the server did not report a total size"),
            }),
        }
    }

    /// Accounts for one body chunk of `len` bytes that has just been written
    /// to the cache file, and decides whether to stop for cancellation,
    /// publish throttled progress, or simply continue. The running count is
    /// clamped to the reported total, so the published fraction never
    /// exceeds one.
    pub fn on_chunk(&mut self, len: u64, cancelled: bool, elapsed: bool) -> (step: DownloadStep)
        requires
            old(self).wf(),
        ensures
            final(self).total == old(self).total,
            final(self).downloaded == if old(self).downloaded + len <= old(self).total {
                old(self).downloaded + len
            } else {
                old(self).total as int
            },
            final(self).wf(),
            step == if cancelled {
                DownloadStep::Cancel
            } else if elapsed {
                DownloadStep::Publish {
                    status: FlashStatus::Active(
                        FlashPhase::Download,
                        progress_of(final(self).downloaded, final(self).total),
                    ),
                }
            } else {
                DownloadStep::Continue
            },
    {
        let room = self.total - self.downloaded;
        if len <= room {
            self.downloaded = self.downloaded + len;
        } else {
            self.downloaded = self.total;
        }
        if cancelled {
            DownloadStep::Cancel
        } else if elapsed {
            DownloadStep::Publish {
                status: FlashStatus::Active(
                    FlashPhase::Download,
                    Progress::from((self.downloaded, self.total)),
                ),
            }
        } else {
            DownloadStep::Continue
        }
    }
}

} // verus!
