//! The ingestor's arithmetic: turning the absolute record times of a
//! recording into scheduling offsets on a clamped timeline. A record's
//! raw delay is its time minus the first record's time minus everything
//! clamped away so far; an optional cap limits each delay to the
//! previous one plus the cap, and the skipped amount accumulates so
//! later records stay anchored to the clamped timeline.

use vstd::prelude::*;

use crate::frames::Frame;
use crate::frames::FrameData;

verus! {

/// The running state of the reader: whether the first record has been
/// seen, its time (the origin), the previous effective delay, the
/// total clamped away so far, and the configured cap, all in
/// microseconds.
pub struct IngestState {
    pub started: bool,
    pub offset: u64,
    pub prev_delay: u64,
    pub clamped_amount: u64,
    pub clamp: Option<u64>,
}

impl IngestState {
    pub open spec fn wf(self) -> bool {
        &&& !self.started ==> (self.offset == 0 && self.prev_delay == 0 && self.clamped_amount
            == 0)
        &&& self.started ==> self.offset + self.clamped_amount <= u64::MAX
    }

    /// A record time the reader can take without its delay going
    /// negative: at or past the origin plus everything clamped away.
    pub open spec fn accepts(self, time_us: u64) -> bool {
        self.started ==> time_us >= self.offset + self.clamped_amount
    }

    /// The delay before capping: time since the origin, less the
    /// accumulated clamped amount. The first record's delay is zero.
    pub open spec fn raw_delay(self, time_us: u64) -> int {
        if self.started {
            time_us - self.offset - self.clamped_amount
        } else {
            0
        }
    }

    /// The delay after the cap: at most the previous effective delay
    /// plus the configured cap.
    pub open spec fn effective_delay(self, time_us: u64) -> int {
        let raw = self.raw_delay(time_us);
        match self.clamp {
            Some(c) => if raw <= self.prev_delay + c {
                raw
            } else {
                self.prev_delay + c
            },
            None => raw,
        }
    }

    pub fn new(clamp: Option<u64>) -> (r: IngestState)
        ensures
            !r.started,
            r.offset == 0,
            r.prev_delay == 0,
            r.clamped_amount == 0,
            r.clamp == clamp,
            r.wf(),
    {
        IngestState { started: false, offset: 0, prev_delay: 0, clamped_amount: 0, clamp }
    }

    /// Run-time check of `accepts`, for a caller that cannot assume
    /// well-formed input files.
    pub fn accepts_time(&self, time_us: u64) -> (b: bool)
        requires
            self.wf(),
        ensures
            b == self.accepts(time_us),
    {
        !self.started || time_us >= self.offset + self.clamped_amount
    }

    /// Takes the next record time and returns its effective delay,
    /// updating the origin (on the first record), the accumulated
    /// clamped amount and the previous delay.
    pub fn next_delay(&mut self, time_us: u64) -> (d: u64)
        requires
            old(self).wf(),
            old(self).accepts(time_us),
        ensures
            final(self).wf(),
            d == old(self).effective_delay(time_us),
            final(self).started,
            final(self).offset == (if old(self).started {
                old(self).offset
            } else {
                time_us
            }),
            final(self).clamp == old(self).clamp,
            final(self).prev_delay == d,
            final(self).clamped_amount == old(self).clamped_amount + (old(self).raw_delay(time_us)
                - d),
    {
        if !self.started {
            self.started = true;
            self.offset = time_us;
        }
        let raw = time_us - self.offset - self.clamped_amount;
        let eff = match self.clamp {
            Some(c) => {
                let cap = self.prev_delay.saturating_add(c);
                if raw <= cap {
                    raw
                } else {
                    cap
                }
            },
            None => raw,
        };
        self.clamped_amount = self.clamped_amount + (raw - eff);
        self.prev_delay = eff;
        eff
    }
}

/// The clamp flag in milliseconds converted to microseconds, or
/// nothing when that does not fit.
pub fn clamp_us_from_ms(ms: u64) -> (r: Option<u64>)
    ensures
        ms * 1000 <= u64::MAX ==> r == Some((ms * 1000) as u64),
        ms * 1000 > u64::MAX ==> r is None,
{
    ms.checked_mul(1000)
}

/// One record of the recording fed through the terminal emulator and
/// appended to the store: the parser consumes the record's bytes, a
/// snapshot of its screen is stored with the record's effective delay,
/// and the new count is returned.
pub fn ingest_record(
    ing: &mut IngestState,
    parser: &mut vt100::Parser,
    store: &mut FrameData,
    time_us: u64,
    data: &[u8],
) -> (count: usize)
    requires
        old(ing).wf(),
        old(ing).accepts(time_us),
        !old(store).done(),
    ensures
        final(ing).wf(),
        final(ing).clamp == old(ing).clamp,
        !final(store).done(),
        final(store).frame_seq().len() == old(store).frame_seq().len() + 1,
        final(store).frame_seq().drop_last() == old(store).frame_seq(),
        final(store).frame_seq().last().delay == old(ing).effective_delay(time_us),
        count == final(store).frame_seq().len(),
{
    parser.process(data);
    let screen = parser.screen().clone();
    let d = ing.next_delay(time_us);
    store.add_frame(Frame::new(screen, d));
    proof {
        assert(store.frame_seq().drop_last() =~= old(store).frame_seq());
    }
    store.count()
}

} // verus!
