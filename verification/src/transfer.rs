//! The copy phase: streaming the resolved image to the destination device in
//! fixed-size chunks, with cooperative cancellation after every chunk and
//! throttled progress reports. The per-chunk decisions live in
//! `CopyTracker`; `copy_simulated` runs the whole loop against an in-memory
//! device and carries the engine's correctness statement: a successful copy
//! reproduces the source byte for byte, a cancelled copy stops within one
//! chunk of the cancellation offset, and published fractions never decrease.

use vstd::prelude::*;
use crate::progress::{FlashPhase, FlashStatus, Progress, ProgressChannel, progress_of};

verus! {

/// How the copy phase ended.
#[derive(Debug)]
pub enum CopyOutcome {
    /// End of stream was reached, everything was written, flushed and synced.
    Success,
    /// The cancellation flag was observed cleared; no further bytes were
    /// written. Not an error.
    Cancelled,
    /// Reading from the source failed.
    ReadFailed { details: String },
    /// Writing to the destination failed.
    WriteFailed,
}

/// The mathematical shape of a `CopyOutcome`.
pub enum CopyOutcomeView {
    Success,
    Cancelled,
    ReadFailed { details: Seq<char> },
    WriteFailed,
}

impl View for CopyOutcome {
    type V = CopyOutcomeView;

    open spec fn view(&self) -> CopyOutcomeView {
        match self {
            CopyOutcome::Success => CopyOutcomeView::Success,
            CopyOutcome::Cancelled => CopyOutcomeView::Cancelled,
            CopyOutcome::ReadFailed { details } => CopyOutcomeView::ReadFailed {
                details: details@,
            },
            CopyOutcome::WriteFailed => CopyOutcomeView::WriteFailed,
        }
    }
}

/// What to do after a read returned `n` bytes.
pub enum ReadStep {
    /// The cancellation flag was observed cleared: stop without writing the
    /// bytes just read.
    Cancel,
    /// End of stream: publish the final progress, flush and sync, succeed.
    Finish,
    /// Write the bytes just read.
    Write,
}

/// What to do after a chunk was written.
pub enum WriteStep {
    /// The cancellation flag was observed cleared: stop writing.
    Cancel,
    /// Publish this status (the throttle interval has elapsed).
    Publish { status: FlashStatus },
    /// Keep copying without publishing.
    Continue,
}

/// Progress accounting for the copy phase. `size` is the total size hint; a
/// hint of zero means the size is unknown and progress degrades to `Pulse`.
pub struct CopyTracker {
    /// Bytes written to the destination so far.
    pub total: u64,
    /// The size hint for the whole image; zero when unknown.
    pub size: u64,
}

impl CopyTracker {
    pub fn new(size_hint: u64) -> (r: Self)
        ensures
            r == (CopyTracker { total: 0, size: size_hint }),
    {
        CopyTracker { total: 0, size: size_hint }
    }

    /// Decides what to do after a read handed back `n` bytes: stop on
    /// cancellation before anything is written, finish on end of stream,
    /// write otherwise.
    pub fn on_read(&self, n: usize, cancelled: bool) -> (step: ReadStep)
        ensures
            step == if cancelled {
                ReadStep::Cancel
            } else if n == 0 {
                ReadStep::Finish
            } else {
                ReadStep::Write
            },
    {
        if cancelled {
            ReadStep::Cancel
        } else if n == 0 {
            ReadStep::Finish
        } else {
            ReadStep::Write
        }
    }

    /// Accounts for a chunk of `n` bytes that has just been written, and
    /// decides whether to stop for cancellation or publish throttled
    /// progress.
    pub fn on_written(&mut self, n: usize, cancelled: bool, elapsed: bool) -> (step: WriteStep)
        requires
            old(self).total + n <= u64::MAX,
        ensures
            final(self).size == old(self).size,
            final(self).total == old(self).total + n,
            step == if cancelled {
                WriteStep::Cancel
            } else if elapsed {
                WriteStep::Publish {
                    status: FlashStatus::Active(
                        FlashPhase::Copy,
                        progress_of(final(self).total, final(self).size),
                    ),
                }
            } else {
                WriteStep::Continue
            },
    {
        self.total = self.total + n as u64;
        if cancelled {
            WriteStep::Cancel
        } else if elapsed {
            WriteStep::Publish {
                status: FlashStatus::Active(
                    FlashPhase::Copy,
                    Progress::from((self.total, self.size)),
                ),
            }
        } else {
            WriteStep::Continue
        }
    }

    /// The status published at end of stream, before the durability barrier:
    /// everything counted so far over the size hint.
    pub fn final_status(&self) -> (s: FlashStatus)
        ensures
            s == FlashStatus::Active(FlashPhase::Copy, progress_of(self.total, self.size)),
    {
        FlashStatus::Active(FlashPhase::Copy, Progress::from((self.total, self.size)))
    }
}

/// Whether the cancellation flag reads as cleared once `t` bytes have been
/// written, for a flag that the caller clears at offset `at`. The flag is
/// never set again, so the observation is monotone in `t`.
pub open spec fn cancel_observed(cancel_at: Option<u64>, t: int) -> bool {
    match cancel_at {
        Some(at) => t >= at,
        None => false,
    }
}

/// Whether a write attempted after `t` bytes fails, for a device that starts
/// failing at offset `at`.
pub open spec fn write_fails(fail_at: Option<u64>, t: int) -> bool {
    match fail_at {
        Some(at) => t >= at,
        None => false,
    }
}

/// The run of the copy loop from a written total of `t`: which outcome it
/// stops with, and how many bytes the destination holds then. Each
/// iteration checks cancellation after the read, fails or performs the
/// write, and checks cancellation again after the write, exactly as the
/// executable loop does.
pub open spec fn copy_run(
    len: int,
    chunk: int,
    cancel_at: Option<u64>,
    fail_at: Option<u64>,
    t: int,
) -> (CopyOutcomeView, int)
    recommends
        chunk >= 1,
        0 <= t <= len,
    decreases len - t,
{
    if cancel_observed(cancel_at, t) {
        (CopyOutcomeView::Cancelled, t)
    } else if t >= len {
        (CopyOutcomeView::Success, t)
    } else if write_fails(fail_at, t) {
        (CopyOutcomeView::WriteFailed, t)
    } else if chunk < 1 {
        (CopyOutcomeView::Success, t)
    } else {
        let n = if len - t < chunk {
            len - t
        } else {
            chunk
        };
        let t2 = t + n;
        if cancel_observed(cancel_at, t2) {
            (CopyOutcomeView::Cancelled, t2)
        } else {
            copy_run(len, chunk, cancel_at, fail_at, t2)
        }
    }
}

/// A cancelled run stops within one chunk of the cancellation offset: this
/// is the bounded slack of cooperative cancellation.
proof fn lemma_copy_run_cancel_bound(
    len: int,
    chunk: int,
    cancel_at: Option<u64>,
    fail_at: Option<u64>,
    t: int,
)
    requires
        chunk >= 1,
        0 <= t <= len,
        cancel_at matches Some(at) ==> t < at + chunk,
    ensures
        copy_run(len, chunk, cancel_at, fail_at, t).0 is Cancelled ==> (cancel_at matches Some(at)
            && copy_run(len, chunk, cancel_at, fail_at, t).1 < at + chunk),
    decreases len - t,
{
    if cancel_observed(cancel_at, t) {
    } else if t == len {
    } else if write_fails(fail_at, t) {
    } else {
        let n = if len - t < chunk {
            len - t
        } else {
            chunk
        };
        let t2 = t + n;
        if cancel_observed(cancel_at, t2) {
        } else {
            lemma_copy_run_cancel_bound(len, chunk, cancel_at, fail_at, t2);
        }
    }
}

/// The number of the fraction a copy status carries, when it is one.
pub open spec fn copy_fraction_num(s: FlashStatus) -> Option<u64> {
    match s {
        FlashStatus::Active(FlashPhase::Copy, Progress::Fraction { num, den: _ }) => Some(num),
        _ => None,
    }
}

/// Two statuses in publication order report non-decreasing fractions, when
/// both report one.
pub open spec fn frac_le(a: FlashStatus, b: FlashStatus) -> bool {
    match (copy_fraction_num(a), copy_fraction_num(b)) {
        (Some(x), Some(y)) => x <= y,
        _ => true,
    }
}

/// Every pair of entries of `h` between `from` and `to` reports
/// non-decreasing fractions.
pub open spec fn copy_fractions_monotone(h: Seq<FlashStatus>, from: int, to: int) -> bool {
    forall|i: int, j: int| from <= i <= j < to ==> #[trigger] frac_le(h[i], h[j])
}

/// The fraction `s` carries, when it carries one, is at most `bound`.
pub open spec fn frac_at_most(s: FlashStatus, bound: int) -> bool {
    match copy_fraction_num(s) {
        Some(x) => x <= bound,
        None => true,
    }
}

/// Runs the whole copy phase against an in-memory device. The source plays
/// the readable stream, `device` the opened destination, `cancel_at` the
/// offset at which the shared cancellation flag is observed cleared, and
/// `fail_at` the offset from which writes fail. This is the same per-chunk
/// protocol the surrounding process drives against a real device, with every
/// read and write made concrete, so the engine's guarantees can be stated
/// and proved over it:
/// a successful copy reproduces the source exactly; whatever was written is
/// always a prefix of the source; a cancelled copy terminates as cancelled
/// (not failed) within one chunk of the cancellation offset; fraction
/// reports never decrease and end at the full total on success; and the copy
/// phase itself never publishes a terminal status.
pub fn copy_simulated(
    source: &Vec<u8>,
    chunk_size: usize,
    size_hint: u64,
    cancel_at: Option<u64>,
    fail_at: Option<u64>,
    device: &mut Vec<u8>,
    chan: &mut ProgressChannel,
) -> (outcome: CopyOutcome)
    requires
        chunk_size >= 1,
        old(device)@.len() == 0,
        source@.len() <= u64::MAX,
    ensures
        ({
            let run = copy_run(
                source@.len() as int,
                chunk_size as int,
                cancel_at,
                fail_at,
                0,
            );
            &&& outcome@ == run.0
            &&& final(device)@.len() == run.1
        }),
        final(device)@ == source@.take(final(device)@.len() as int),
        outcome is Success ==> final(device)@ == source@,
        cancel_at is None && fail_at is None ==> outcome is Success,
        outcome is Cancelled ==> (cancel_at matches Some(at) && final(device)@.len() < at
            + chunk_size),
        outcome is Cancelled ==> cancel_at is Some,
        outcome is WriteFailed ==> fail_at is Some,
        !(outcome is ReadFailed),
        final(chan).history().len() >= old(chan).history().len(),
        forall|i: int|
            old(chan).history().len() <= i < final(chan).history().len()
                ==> #[trigger] final(chan).history()[i] matches FlashStatus::Active(
                FlashPhase::Copy,
                _,
            ),
        copy_fractions_monotone(
            final(chan).history(),
            old(chan).history().len() as int,
            final(chan).history().len() as int,
        ),
        forall|i: int|
            0 <= i < old(chan).history().len() ==> final(chan).history()[i] == old(
                chan,
            ).history()[i],
        outcome is Success ==> final(chan).history().len() >= old(chan).history().len() + 1
            && final(chan).history().last() == FlashStatus::Active(
            FlashPhase::Copy,
            progress_of(source@.len() as u64, size_hint),
        ),
{
    let ghost len = source@.len() as int;
    let ghost chunk = chunk_size as int;
    let ghost base = chan.history().len() as int;
    let mut tracker = CopyTracker::new(size_hint);
    let mut total: usize = 0;
    loop
        invariant
            chunk_size >= 1,
            source@.len() <= u64::MAX,
            total <= source@.len(),
            device@.len() == total,
            device@ == source@.take(total as int),
            tracker.total == total as u64,
            tracker.size == size_hint,
            len == source@.len() as int,
            chunk == chunk_size as int,
            base == old(chan).history().len(),
            copy_run(len, chunk, cancel_at, fail_at, total as int) == copy_run(
                len,
                chunk,
                cancel_at,
                fail_at,
                0,
            ),
            chan.history().len() >= base,
            forall|i: int|
                base <= i < chan.history().len() ==> #[trigger] chan.history()[i]
                    matches FlashStatus::Active(FlashPhase::Copy, _),
            forall|i: int|
                base <= i < chan.history().len() ==> frac_at_most(
                    #[trigger] chan.history()[i],
                    total as int,
                ) && frac_at_most(chan.history()[i], size_hint as int),
            copy_fractions_monotone(chan.history(), base, chan.history().len() as int),
            forall|i: int| 0 <= i < base ==> chan.history()[i] == old(chan).history()[i],
        decreases source@.len() - total,
    {
        let remaining = source.len() - total;
        let n = if remaining < chunk_size {
            remaining
        } else {
            chunk_size
        };
        let read_cancelled = match cancel_at {
            Some(at) => total as u64 >= at,
            None => false,
        };
        match tracker.on_read(n, read_cancelled) {
            ReadStep::Cancel => {
                proof {
                    assert(cancel_observed(cancel_at, total as int));
                    assert(copy_run(len, chunk, cancel_at, fail_at, total as int) == (
                    CopyOutcomeView::Cancelled,
                    total as int,
                    ));
                    lemma_copy_run_cancel_bound(len, chunk, cancel_at, fail_at, 0);
                }
                return CopyOutcome::Cancelled;
            },
            ReadStep::Finish => {
                let status = tracker.final_status();
                chan.set(status);
                return CopyOutcome::Success;
            },
            ReadStep::Write => {},
        }
        let write_failed = match fail_at {
            Some(at) => total as u64 >= at,
            None => false,
        };
        if write_failed {
            return CopyOutcome::WriteFailed;
        }
        let mut m: usize = 0;
        while m < n
            invariant
                total + n <= source@.len(),
                total + n <= usize::MAX,
                m <= n,
                device@.len() == total + m,
                device@ == source@.take(total + m),
            decreases n - m,
        {
            let byte = source[total + m];
            device.push(byte);
            proof {
                assert(device@ =~= source@.take(total + m + 1));
            }
            m = m + 1;
        }
        let new_total = total + n;
        let write_cancelled = match cancel_at {
            Some(at) => new_total as u64 >= at,
            None => false,
        };
        match tracker.on_written(n, write_cancelled, true) {
            WriteStep::Cancel => {
                proof {
                    lemma_copy_run_cancel_bound(len, chunk, cancel_at, fail_at, 0);
                }
                total = new_total;
                return CopyOutcome::Cancelled;
            },
            WriteStep::Publish { status } => {
                chan.set(status);
            },
            WriteStep::Continue => {},
        }
        total = new_total;
    }
}

} // verus!
