//! Progress of a run, and when it is worth a line on the console.

use vstd::prelude::*;

verus! {

/// Percentages are reported in steps of this size.
pub const REPORT_STEP: usize = 5;

/// After this many seconds without a report one is made whatever the
/// percentage.
pub const REPORT_INTERVAL_SECS: u64 = 5;

/// How far a run has come, as the model of a `ProgressState`.
pub struct Progress {
    /// Pictures that the run is to handle.
    pub total: nat,
    /// Pictures handled so far.
    pub processed: nat,
    /// The percentage last reported.
    pub last_percentage: nat,
    /// When it was reported, in seconds.
    pub last_report: nat,
}

/// The part of `total` that `processed` is, in whole percent, rounded down.
/// A run over nothing is complete.
pub open spec fn percentage(processed: nat, total: nat) -> nat {
    if total == 0 {
        100
    } else {
        processed * 100 / total
    }
}

/// The seconds from `since` to `now`; none where the clock went back.
pub open spec fn elapsed(now: nat, since: nat) -> nat {
    if now >= since {
        (now - since) as nat
    } else {
        0
    }
}

/// Whether `percent` is worth a report: it is a whole step and more than what
/// was last reported, or the last report is `waited` seconds old and that is
/// long enough.
pub open spec fn report_due(percent: nat, last_percentage: nat, waited: nat) -> bool {
    (percent % (REPORT_STEP as nat) == 0 && percent > last_percentage) || waited
        >= REPORT_INTERVAL_SECS
}

impl Progress {
    /// Nothing is counted twice, no report is ahead of the work done, and a
    /// run that handled its last picture has reported 100.
    pub open spec fn wf(self) -> bool {
        &&& self.processed <= self.total
        &&& self.last_percentage <= percentage(self.processed, self.total)
        &&& self.total > 0 && self.processed == self.total ==> self.last_percentage == 100
    }

    /// Every picture has been handled.
    pub open spec fn is_complete(self) -> bool {
        self.processed == self.total
    }

    /// The percentage to report when one more picture has been handled at
    /// time `now`, if any.
    pub open spec fn report_at(self, now: nat) -> Option<nat> {
        let percent = percentage(self.processed + 1, self.total);
        if !self.is_complete() && report_due(
            percent,
            self.last_percentage,
            elapsed(now, self.last_report),
        ) {
            Some(percent)
        } else {
            None
        }
    }

    /// The progress when one more picture has been handled at time `now`.
    /// A complete run stays as it is.
    pub open spec fn advance(self, now: nat) -> Progress {
        if self.is_complete() {
            self
        } else {
            match self.report_at(now) {
                Some(percent) => Progress {
                    processed: self.processed + 1,
                    last_percentage: percent,
                    last_report: now,
                    ..self
                },
                None => Progress { processed: self.processed + 1, ..self },
            }
        }
    }
}

/// The percentage never falls as pictures are handled, never passes 100, and
/// is 100 only when every picture has been handled.
pub proof fn percentage_grows(fewer: nat, more: nat, total: nat)
    requires
        fewer <= more <= total,
    ensures
        percentage(fewer, total) <= percentage(more, total) <= 100,
        total > 0 ==> (percentage(more, total) == 100 <==> more == total),
{
    if total > 0 {
        let t = total as int;
        let a = fewer as int;
        let b = more as int;
        assert((a * 100) / t <= (b * 100) / t) by (nonlinear_arith)
            requires
                0 <= a <= b,
                t > 0,
        ;
        assert((b * 100) / t <= 100 && ((b * 100) / t == 100 <==> b == t)) by (nonlinear_arith)
            requires
                0 <= b <= t,
                t > 0,
        ;
    }
}

/// Handling one more picture keeps the progress well formed.
pub proof fn advance_keeps_wf(state: Progress, now: nat)
    requires
        state.wf(),
    ensures
        state.advance(now).wf(),
{
    if !state.is_complete() {
        percentage_grows(state.processed, state.processed + 1, state.total);
    }
}

/// 100 is reported at most once: the step that reports it is the one that
/// handles the last picture, and after it nothing more is reported.
pub proof fn hundred_is_reported_once(state: Progress, now: nat, later: nat)
    requires
        state.wf(),
    ensures
        state.report_at(now) == Some(100nat) ==> state.last_percentage < 100
            && state.advance(now).is_complete(),
        state.advance(now).is_complete() && state.total > 0 ==> state.advance(
            now,
        ).last_percentage == 100,
        state.last_percentage == 100 ==> state.report_at(now).is_none(),
        state.is_complete() && state.total > 0 ==> state.last_percentage == 100,
        state.advance(now).is_complete() ==> state.advance(now).report_at(later).is_none(),
{
    percentage_grows(state.processed, state.processed, state.total);
    if !state.is_complete() {
        percentage_grows(state.processed, state.processed + 1, state.total);
    }
    advance_keeps_wf(state, now);
}

/// The counters of a run. They belong to the driver alone and change after
/// each picture.
#[derive(Clone, Copy, Debug)]
pub struct ProgressState {
    total: usize,
    processed: usize,
    last_percentage: usize,
    last_report: u64,
}

impl View for ProgressState {
    type V = Progress;

    closed spec fn view(&self) -> Progress {
        Progress {
            total: self.total as nat,
            processed: self.processed as nat,
            last_percentage: self.last_percentage as nat,
            last_report: self.last_report as nat,
        }
    }
}

impl ProgressState {
    /// The counters are consistent.
    pub open spec fn wf(&self) -> bool {
        self@.wf()
    }

    /// The progress of a run over `total` pictures that starts at time `now`,
    /// in seconds.
    pub fn new(total: usize, now: u64) -> (state: ProgressState)
        ensures
            state.wf(),
            state@ == (Progress {
                total: total as nat,
                processed: 0,
                last_percentage: 0,
                last_report: now as nat,
            }),
    {
        ProgressState { total, processed: 0, last_percentage: 0, last_report: now }
    }

    /// Pictures that the run is to handle.
    pub fn total(&self) -> (n: usize)
        ensures
            n == self@.total,
    {
        self.total
    }

    /// Pictures handled so far.
    pub fn processed(&self) -> (n: usize)
        ensures
            n == self@.processed,
    {
        self.processed
    }

    /// The percentage last reported.
    pub fn last_percentage(&self) -> (percent: usize)
        ensures
            percent == self@.last_percentage,
    {
        self.last_percentage
    }

    /// Counts one more picture as handled at time `now`, in seconds, and
    /// gives the percentage to report, if one is due.
    pub fn record(&mut self, now: u64) -> (report: Option<usize>)
        requires
            old(self).wf(),
        ensures
            final(self).wf(),
            final(self)@ == old(self)@.advance(now as nat),
            report.is_some() == old(self)@.report_at(now as nat).is_some(),
            report matches Some(percent) ==> old(self)@.report_at(now as nat) == Some(
                percent as nat,
            ),
    {
        if self.processed >= self.total {
            return None;
        }
        proof {
            percentage_grows(self@.processed, self@.processed + 1, self@.total);
            advance_keeps_wf(self@, now as nat);
        }
        self.processed = self.processed + 1;
        let scaled: u128 = (self.processed as u128) * 100;
        let percent: usize = (scaled / (self.total as u128)) as usize;
        let waited: u64 = if now >= self.last_report {
            now - self.last_report
        } else {
            0
        };
        if (percent % REPORT_STEP == 0 && percent > self.last_percentage) || waited
            >= REPORT_INTERVAL_SECS {
            self.last_percentage = percent;
            self.last_report = now;
            Some(percent)
        } else {
            None
        }
    }

    /// Tells whether a last report of 100 is still owed when the run ends:
    /// it is unless 100 was the last percentage reported.
    pub fn final_report_owed(&self) -> (owed: bool)
        ensures
            owed == (self@.last_percentage < 100),
    {
        self.last_percentage < 100
    }
}

} // verus!
