//! The pulse counter: one reading per pulse of the tube.

use crate::fraction::Fraction;
use crate::history::{is_window, recorded, PulseHistory};
use crate::rate::{counts_per_minute, cpm_of, dose_of, dose_rate};
use vstd::prelude::*;

verus! {

/// What the counter reports for one pulse.
///
/// `cpm` and `val` are absent while the window holds fewer than two pulses:
/// one pulse alone defines no rate.
#[derive(Clone, Copy, Debug, PartialEq, Eq, Structural)]
pub struct Reading {
    /// Milliseconds since the pulse before.
    pub dur: u64,
    /// Counts per minute over the window.
    pub cpm: Option<Fraction>,
    /// Dose rate over the window, in µSv/h.
    pub val: Option<Fraction>,
}

/// The time that a window spans, from its oldest pulse to its newest.
pub open spec fn span_of(window: Seq<u64>) -> u64 {
    (window.last() - window.first()) as u64
}

/// The reading for a pulse that came `dur` milliseconds after the one before
/// and left `window` behind.
pub open spec fn reading_of(dur: u64, window: Seq<u64>) -> Reading {
    if window.len() < 2 {
        Reading { dur, cpm: None, val: None }
    } else {
        Reading {
            dur,
            cpm: Some(cpm_of(window.len() as u64, span_of(window))),
            val: Some(dose_of(window.len() as u64, span_of(window))),
        }
    }
}

/// A window of fewer than two pulses gives a reading without a rate, and one
/// of two or more gives both rates.
pub proof fn lemma_rate_needs_two_pulses(dur: u64, window: Seq<u64>)
    ensures
        window.len() < 2 <==> reading_of(dur, window).cpm.is_none(),
        window.len() < 2 <==> reading_of(dur, window).val.is_none(),
        reading_of(dur, window).dur == dur,
{
}

/// Counts the pulses of the tube and keeps the window they fall in.
pub struct PulseCounter {
    last: u64,
    history: PulseHistory,
}

impl PulseCounter {
    /// The time of the last pulse, or of the start while there was none.
    pub closed spec fn last_pulse(&self) -> u64 {
        self.last
    }

    /// The timestamps in the window, oldest first.
    pub closed spec fn window(&self) -> Seq<u64> {
        self.history@
    }

    /// The counter is sound: its window is one, and ends with the last pulse.
    pub closed spec fn wf(&self) -> bool {
        &&& self.history.wf()
        &&& self.history@.len() > 0 ==> self.history@.last() == self.last
    }

    /// A sound counter holds a window that ends with the last pulse.
    pub proof fn lemma_wf_window(&self)
        requires
            self.wf(),
        ensures
            is_window(self.window()),
            self.window().len() > 0 ==> self.window().last() == self.last_pulse(),
    {
        self.history.lemma_wf_is_window();
    }

    /// A counter that starts at `start` with an empty window.
    pub fn new(start: u64) -> (counter: Self)
        ensures
            counter.wf(),
            counter.last_pulse() == start,
            counter.window() == Seq::<u64>::empty(),
    {
        PulseCounter { last: start, history: PulseHistory::new() }
    }

    /// The time of the last pulse, or of the start while there was none.
    pub fn last(&self) -> (t: u64)
        ensures
            t == self.last_pulse(),
    {
        self.last
    }

    /// The timestamps in the window, oldest first.
    pub fn timestamps(&self) -> (all: Vec<u64>)
        requires
            self.wf(),
        ensures
            all@ == self.window(),
    {
        self.history.timestamps()
    }

    /// Takes in the pulse at `now` and returns its reading.
    ///
    /// The reading's `dur` is the time since the last pulse. The pulse is
    /// recorded in the window, and the rates are those of the window with the
    /// pulse in it. The clock is monotonic: `now` is not before the last
    /// pulse.
    pub fn on_pulse(&mut self, now: u64) -> (reading: Reading)
        requires
            old(self).wf(),
            old(self).last_pulse() <= now,
        ensures
            final(self).wf(),
            final(self).last_pulse() == now,
            final(self).window() == recorded(old(self).window(), now),
            reading == reading_of((now - old(self).last_pulse()) as u64, final(self).window()),
            reading.dur == now - old(self).last_pulse(),
            reading.cpm.is_none() <==> final(self).window().len() < 2,
            reading.val.is_none() <==> final(self).window().len() < 2,
    {
        let dur = now - self.last;
        self.last = now;
        self.history.record(now);
        let count = self.history.len();
        if count >= 2 {
            match (self.history.oldest(), self.history.newest()) {
                (Some(oldest), Some(newest)) => {
                    proof {
                        self.history.lemma_wf_is_window();
                    }
                    let span = newest - oldest;
                    Reading {
                        dur,
                        cpm: Some(counts_per_minute(count as u64, span)),
                        val: Some(dose_rate(count as u64, span)),
                    }
                },
                _ => Reading { dur, cpm: None, val: None },
            }
        } else {
            Reading { dur, cpm: None, val: None }
        }
    }
}

} // verus!
