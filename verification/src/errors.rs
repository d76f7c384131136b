//! The fatal error kinds a flash job can end with, and the human-readable
//! message that accompanies each of them. Cancellation is not an error: a
//! cancelled job ends silently. Advisory failures (unmount, rescan, eject)
//! never reach this type.

use vstd::prelude::*;
use vstd::string::StringExecFns;

verus! {

/// A fatal error: it aborts the remaining phases of a job (except
/// finalization) and is surfaced as `Done(Some(message))`.
#[derive(Debug)]
pub enum FlashError {
    /// The source image could not be obtained: a local file was missing or
    /// unreadable, a remote fetch failed, or the server did not report a
    /// total size.
    SourceUnavailable { details: String },
    /// The external decompression process exited with a non-zero code;
    /// `details` carries its captured standard-error text when available.
    ExtractionFailed { details: Option<String> },
    /// The disk-management service denied an exclusive open of the
    /// destination device.
    DeviceUnavailable { details: String },
    /// A read or write failed during the copy phase.
    IoFailure { details: String },
}

/// The mathematical shape of a `FlashError`, with detail strings abstracted
/// to character sequences.
pub enum ErrorView {
    SourceUnavailable { details: Seq<char> },
    ExtractionFailed { details: Option<Seq<char>> },
    DeviceUnavailable { details: Seq<char> },
    IoFailure { details: Seq<char> },
}

impl View for FlashError {
    type V = ErrorView;

    open spec fn view(&self) -> ErrorView {
        match self {
            FlashError::SourceUnavailable { details } => ErrorView::SourceUnavailable {
                details: details@,
            },
            FlashError::ExtractionFailed { details } => ErrorView::ExtractionFailed {
                details: match details {
                    Some(d) => Some(d@),
                    None => None,
                },
            },
            FlashError::DeviceUnavailable { details } => ErrorView::DeviceUnavailable {
                details: details@,
            },
            FlashError::IoFailure { details } => ErrorView::IoFailure { details: details@ },
        }
    }
}

impl Clone for FlashError {
    fn clone(&self) -> (r: Self)
        ensures
            r@ == self@,
    {
        match self {
            FlashError::SourceUnavailable { details } => FlashError::SourceUnavailable {
                details: details.clone(),
            },
            FlashError::ExtractionFailed { details } => FlashError::ExtractionFailed {
                details: match details {
                    Some(d) => Some(d.clone()),
                    None => None,
                },
            },
            FlashError::DeviceUnavailable { details } => FlashError::DeviceUnavailable {
                details: details.clone(),
            },
            FlashError::IoFailure { details } => FlashError::IoFailure {
                details: details.clone(),
            },
        }
    }
}

/// The message that accompanies a fatal error. Each kind has a distinct
/// prefix, and the captured detail text is appended verbatim.
pub open spec fn message_of(e: ErrorView) -> Seq<char> {
    match e {
        ErrorView::SourceUnavailable { details } => "could not read the source image: "@ + details,
        ErrorView::ExtractionFailed { details: Some(d) } => "image extraction failed: "@ + d,
        ErrorView::ExtractionFailed { details: None } => "image extraction failed"@,
        ErrorView::DeviceUnavailable { details } => "could not open the destination drive: "@
            + details,
        ErrorView::IoFailure { details } => "writing the image failed: "@ + details,
    }
}

/// Renders the message for a fatal error. The message is never empty, so a
/// failed job is always distinguishable from a successful one.
pub fn error_message(e: &FlashError) -> (r: String)
    ensures
        r@ == message_of(e@),
        r@.len() >= 1,
{
    proof {
        reveal_strlit("could not read the source image: ");
        reveal_strlit("image extraction failed: ");
        reveal_strlit("image extraction failed");
        reveal_strlit("could not open the destination drive: ");
        reveal_strlit("writing the image failed: ");
    }
    match e {
        FlashError::SourceUnavailable { details } => String::from_str(
            "could not read the source image: ",
        ).concat(details.as_str()),
        FlashError::ExtractionFailed { details: Some(d) } => String::from_str(
            "image extraction failed: ",
        ).concat(d.as_str()),
        FlashError::ExtractionFailed { details: None } => String::from_str(
            "image extraction failed",
        ),
        FlashError::DeviceUnavailable { details } => String::from_str(
            "could not open the destination drive: ",
        ).concat(details.as_str()),
        FlashError::IoFailure { details } => String::from_str("writing the image failed: ").concat(
            details.as_str(),
        ),
    }
}

} // verus!
