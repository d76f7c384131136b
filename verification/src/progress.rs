//! Progress reporting: phases, fractions, and the single-slot status cell
//! that a running flash job writes and an observer polls.

use vstd::prelude::*;

verus! {

/// The user-visible phase of a flash job. `Copy` covers both plain copying
/// and decompress-and-copy; `Download` is only entered for remote sources.
#[derive(Clone, Copy, Debug, PartialEq, Eq, Structural)]
pub enum FlashPhase {
    Download,
    Copy,
}

/// Determinate progress as a fraction `num / den`, or an indeterminate pulse
/// when no total is known.
#[derive(Clone, Copy, Debug, PartialEq, Eq, Structural)]
pub enum Progress {
    Fraction { num: u64, den: u64 },
    Pulse,
}

/// The progress that `(num, den)` renders as: a pulse when the denominator is
/// zero, otherwise a fraction clamped to at most one.
pub open spec fn progress_of(num: u64, den: u64) -> Progress {
    if den == 0 {
        Progress::Pulse
    } else if num <= den {
        Progress::Fraction { num, den }
    } else {
        Progress::Fraction { num: den, den }
    }
}

impl Progress {
    /// A fraction's denominator is positive and its value is at most one.
    pub open spec fn wf(self) -> bool {
        match self {
            Progress::Fraction { num, den } => 0 < den && num <= den,
            Progress::Pulse => true,
        }
    }
}

impl From<(u64, u64)> for Progress {
    /// Turns a `(done, total)` pair into progress. A zero total degrades to
    /// `Pulse` instead of dividing by zero, and a count that overshoots the
    /// total is clamped so a fraction never exceeds one.
    fn from(value: (u64, u64)) -> (r: Self)
        ensures
            r == progress_of(value.0, value.1),
            value.1 == 0 ==> r is Pulse,
            r.wf(),
    {
        let (num, den) = value;
        if den == 0 {
            Progress::Pulse
        } else if num <= den {
            Progress::Fraction { num, den }
        } else {
            Progress::Fraction { num: den, den }
        }
    }
}

impl vstd::std_specs::convert::FromSpecImpl<(u64, u64)> for Progress {
    open spec fn obeys_from_spec() -> bool {
        true
    }

    open spec fn from_spec(v: (u64, u64)) -> Progress {
        progress_of(v.0, v.1)
    }
}

/// The observable state of a flash job: either still working in some phase,
/// or finished. `Done(None)` is success; `Done(Some(msg))` is a terminal
/// failure with a human-readable cause.
#[derive(Debug)]
pub enum FlashStatus {
    Active(FlashPhase, Progress),
    Done(Option<String>),
}

impl Clone for FlashStatus {
    fn clone(&self) -> (r: Self)
        ensures
            r == *self,
    {
        match self {
            FlashStatus::Active(phase, progress) => FlashStatus::Active(*phase, *progress),
            FlashStatus::Done(None) => FlashStatus::Done(None),
            FlashStatus::Done(Some(message)) => FlashStatus::Done(Some(message.clone())),
        }
    }
}

impl FlashStatus {
    /// True of a terminal status.
    pub open spec fn is_done(self) -> bool {
        self is Done
    }
}

/// A single-slot status cell with overwrite semantics: `set` replaces the
/// latest value unconditionally, `get` returns a copy of it. Intermediate
/// values may be overwritten before anyone reads them; only the latest value
/// is ever observable. The full sequence of writes is kept as ghost history
/// so that contracts can speak about everything a job ever published.
pub struct ProgressChannel {
    latest: FlashStatus,
    history: Ghost<Seq<FlashStatus>>,
}

impl ProgressChannel {
    /// The most recently written status.
    pub closed spec fn latest_status(&self) -> FlashStatus {
        self.latest
    }

    /// Every status ever written, oldest first, starting with the initial one.
    pub closed spec fn history(&self) -> Seq<FlashStatus> {
        self.history@
    }

    pub open spec fn wf(&self) -> bool {
        self.history().len() >= 1 && self.history().last() == self.latest_status()
    }

    pub fn new(initial: FlashStatus) -> (r: Self)
        ensures
            r.history() =~= seq![initial],
            r.latest_status() == initial,
            r.wf(),
    {
        let ghost h: Seq<FlashStatus> = seq![initial];
        ProgressChannel { latest: initial, history: Ghost(h) }
    }

    /// Overwrites the slot with `status`.
    pub fn set(&mut self, status: FlashStatus)
        ensures
            final(self).latest_status() == status,
            final(self).history() =~= old(self).history().push(status),
            final(self).wf(),
    {
        self.history = Ghost(self.history@.push(status));
        self.latest = status;
    }

    /// Returns a copy of the latest status.
    pub fn get(&self) -> (r: FlashStatus)
        ensures
            r == self.latest_status(),
    {
        self.latest.clone()
    }
}

} // verus!
