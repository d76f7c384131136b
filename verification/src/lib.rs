//! A verified flashing engine for writing disk images to removable storage.
//!
//! The engine is organised as a pipeline: a source image (a local file,
//! an xz-compressed file, or a remote download) is resolved into a readable
//! byte stream, the destination device is unmounted and opened exclusively,
//! the bytes are copied over in fixed-size chunks with throttled progress
//! reports, and the device is rescanned and ejected afterwards. All decisions
//! of that pipeline (phase ordering, cancellation, progress arithmetic, error
//! classification) are verified here; the surrounding process performs the
//! actual I/O and feeds its outcomes back as events.

pub mod catalog;
pub mod device;
pub mod errors;
pub mod job;
pub mod progress;
pub mod resolver;
pub mod sim;
pub mod text;
pub mod transfer;
