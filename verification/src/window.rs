//! The asleep window: which part of the day a time falls in, how long is left
//! until bed time, and when the warning before bed is due.

use crate::clock::{nanos_between, Span, TimeOfDay};
use vstd::prelude::*;

verus! {

/// The two boundaries of the asleep window and the lead of the warning. The
/// window runs from bed time through midnight to wake time, both included.
#[derive(Clone, Copy, Debug, PartialEq, Eq, Structural)]
pub struct Schedule {
    pub bed: TimeOfDay,
    pub wake: TimeOfDay,
    pub warning_lead: Span,
}

/// Where a time of day lies with respect to the asleep window.
#[derive(Clone, Copy, Debug, PartialEq, Eq, Structural)]
pub enum Window {
    /// Outside the asleep window, with the warning not yet due.
    Awake,
    /// Outside the asleep window, less than the warning lead before bed time.
    Warning,
    /// Inside the asleep window.
    Asleep,
}

/// What the evaluator reports of one moment.
#[derive(Clone, Copy, Debug, PartialEq, Eq, Structural)]
pub struct Reading {
    pub window: Window,
    /// Bed time minus the moment: negative once bed time has passed that day.
    pub until_bed: Span,
}

impl Schedule {
    pub open spec fn wf(self) -> bool {
        self.bed.wf() && self.wake.wf()
    }

    /// `now` lies in the asleep window: at or after bed time, or at or before
    /// wake time.
    pub open spec fn asleep_at(self, now: TimeOfDay) -> bool {
        self.bed.no_later_than(now) || now.no_later_than(self.wake)
    }

    /// Nanoseconds from `now` to bed time.
    pub open spec fn nanos_until_bed(self, now: TimeOfDay) -> int {
        nanos_between(self.bed, now)
    }

    /// The warning is due at `now`.
    pub open spec fn warns_at(self, now: TimeOfDay) -> bool {
        !self.asleep_at(now) && self.nanos_until_bed(now) < self.warning_lead.nanos()
    }

    pub open spec fn window_at(self, now: TimeOfDay) -> Window {
        if self.asleep_at(now) {
            Window::Asleep
        } else if self.warns_at(now) {
            Window::Warning
        } else {
            Window::Awake
        }
    }

    pub fn new(bed: TimeOfDay, wake: TimeOfDay, warning_lead: Span) -> (s: Schedule)
        ensures
            s == (Schedule { bed, wake, warning_lead }),
    {
        Schedule { bed, wake, warning_lead }
    }

    /// Bed at 22:00, up at 05:00, warned twenty minutes ahead.
    pub fn standard() -> (s: Schedule)
        ensures
            s.wf(),
            s.bed.secs() == 79_200 && s.bed.nanos() == 0,
            s.wake.secs() == 18_000 && s.wake.nanos() == 0,
            s.warning_lead.nanos() == 1_200_000_000_000,
    {
        let bed = TimeOfDay::from_hms(22, 0, 0);
        let wake = TimeOfDay::from_hms(5, 0, 0);
        Schedule { bed: bed.unwrap(), wake: wake.unwrap(), warning_lead: Span::from_secs(1200) }
    }

    pub fn is_asleep(&self, now: &TimeOfDay) -> (r: bool)
        ensures
            r == self.asleep_at(*now),
            self.wake.earlier_than(*now) && now.earlier_than(self.bed) ==> !r,
    {
        self.bed.is_at_or_before(now) || now.is_at_or_before(&self.wake)
    }

    /// Bed time minus `now`. It is the time that is left only while `now` is
    /// outside the asleep window; after bed time it is negative.
    pub fn time_until_bed(&self, now: &TimeOfDay) -> (d: Span)
        ensures
            d.nanos() == self.nanos_until_bed(*now),
    {
        self.bed.since(now)
    }

    pub fn should_warn(&self, now: &TimeOfDay) -> (r: bool)
        ensures
            r == self.warns_at(*now),
    {
        !self.is_asleep(now) && self.time_until_bed(now).is_shorter_than(&self.warning_lead)
    }

    pub fn evaluate(&self, now: &TimeOfDay) -> (r: Reading)
        ensures
            r.window == self.window_at(*now),
            r.until_bed.nanos() == self.nanos_until_bed(*now),
    {
        let until_bed = self.time_until_bed(now);
        let window = if self.is_asleep(now) {
            Window::Asleep
        } else if until_bed.is_shorter_than(&self.warning_lead) {
            Window::Warning
        } else {
            Window::Awake
        };
        Reading { window, until_bed }
    }
}

/// Every time of day is on exactly one side of the window: strictly between
/// wake time and bed time it is outside, anywhere else it is inside, and the
/// two boundaries themselves are inside.
pub proof fn lemma_window_is_closed(s: Schedule, t: TimeOfDay)
    ensures
        s.wake.earlier_than(t) && t.earlier_than(s.bed) ==> !s.asleep_at(t),
        s.bed.no_later_than(t) || t.no_later_than(s.wake) ==> s.asleep_at(t),
        s.asleep_at(t) <==> !(s.wake.earlier_than(t) && t.earlier_than(s.bed)),
        s.asleep_at(s.bed),
        s.asleep_at(s.wake),
{
}

/// Outside the asleep window bed time lies ahead: the time left is positive
/// and shorter than a day and a second.
pub proof fn lemma_awake_time_left(s: Schedule, t: TimeOfDay)
    requires
        s.wf(),
        t.wf(),
        !s.asleep_at(t),
    ensures
        0 < s.nanos_until_bed(t) < 86_401_000_000_000,
{
}

/// The warning is never due inside the asleep window.
pub proof fn lemma_no_warning_asleep(s: Schedule, t: TimeOfDay)
    ensures
        s.asleep_at(t) ==> !s.warns_at(t),
{
}

} // verus!
