//! The playback scheduler: a pure state machine over virtual time.
//! Instants are measured in microseconds from an arbitrary origin and
//! carried as `i128`; the virtual origin `start_time` may lie in the
//! past or the future of `now`. Frame `i` is due at
//! `start_time + delay(i) * ratio / 16`, where `ratio == 16` plays at
//! the recorded rate, smaller is faster and larger is slower.

use vstd::prelude::*;

use crate::event::TimerAction;
use crate::frames::first_match_from;
use crate::frames::last_match_before;
use crate::frames::FrameData;

verus! {

/// Upper bound on the clock values handed in by the driver loop.
pub const NOW_MAX: i128 = 0x4000_0000_0000_0000;

/// The virtual origin is kept within this bound; a computed origin
/// further out is pinned to it.
pub const TIME_BOUND: i128 = 0x1000000000000000000000000;

/// The playback ratios reachable from the speed controls.
pub open spec fn valid_ratio(r: u32) -> bool {
    r == 1 || r == 2 || r == 4 || r == 8 || r == 16 || r == 32 || r == 64 || r == 128 || r == 256
}

/// The ratio chosen by the speed flag: `2^speed`, with the exponent
/// capped at 8.
pub open spec fn ratio_for_speed(speed: u32) -> u32 {
    if speed == 0 {
        1
    } else if speed == 1 {
        2
    } else if speed == 2 {
        4
    } else if speed == 3 {
        8
    } else if speed == 4 {
        16
    } else if speed == 5 {
        32
    } else if speed == 6 {
        64
    } else if speed == 7 {
        128
    } else {
        256
    }
}

/// A computed virtual origin, pinned into the representable band.
pub open spec fn clamp_time(t: int) -> int {
    if t > TIME_BOUND {
        TIME_BOUND as int
    } else if t < -TIME_BOUND {
        -TIME_BOUND as int
    } else {
        t
    }
}

/// Time spent since the virtual origin, never negative.
pub open spec fn elapsed(now: int, start: int) -> int {
    if now >= start {
        now - start
    } else {
        0
    }
}

/// A recorded delay scaled by the playback ratio.
pub open spec fn scaled_delay(delay: int, ratio: int) -> int {
    (delay * ratio) / 16
}

fn clamp_time_exec(t: i128) -> (r: i128)
    ensures
        r == clamp_time(t as int),
{
    if t > TIME_BOUND {
        TIME_BOUND
    } else if t < -TIME_BOUND {
        -TIME_BOUND
    } else {
        t
    }
}

fn elapsed_exec(now: i128, start: i128) -> (e: i128)
    requires
        -TIME_BOUND <= start,
        now <= NOW_MAX,
    ensures
        e == elapsed(now as int, start as int),
        0 <= e <= NOW_MAX + TIME_BOUND,
{
    if now >= start {
        now - start
    } else {
        0
    }
}

fn scaled_delay_exec(delay: u64, ratio: u32) -> (r: i128)
    requires
        1 <= ratio <= 256,
    ensures
        r == scaled_delay(delay as int, ratio as int),
        0 <= r <= TIME_BOUND,
{
    proof {
        assert((delay as int) * (ratio as int) <= 0xFFFF_FFFF_FFFF_FFFFu64 * 256int) by (nonlinear_arith)
            requires
                delay <= 0xFFFF_FFFF_FFFF_FFFFu64,
                ratio <= 256u32,
        ;
    }
    let p: u128 = (delay as u128) * (ratio as u128);
    let q: u128 = p / 16;
    q as i128
}

fn mul16_div_ratio_exec(e: i128, ratio: u32) -> (r: i128)
    requires
        0 <= e <= NOW_MAX + TIME_BOUND,
        1 <= ratio <= 256,
    ensures
        r == (e * 16) / (ratio as int),
        0 <= r,
{
    let p: u128 = (e as u128) * 16;
    let q: u128 = p / (ratio as u128);
    proof {
        assert(q <= p);
    }
    q as i128
}

fn half_exec(e: i128) -> (r: i128)
    requires
        0 <= e,
    ensures
        r == e / 2,
        0 <= r <= e,
{
    ((e as u128) / 2) as i128
}

/// What the driver loop must do after asking about the frame under the
/// cursor: present it at once, present it at the given instant, or
/// stay put until an action arrives.
#[derive(Debug, Clone, Copy, PartialEq, Eq)]
pub enum EmitPlan {
    EmitNow,
    SleepUntil(i128),
    Suspend,
}

/// What the driver loop must do after an action was applied: nothing,
/// announce the new paused state, announce the new speed, or stop.
#[derive(Debug, Clone, Copy, PartialEq, Eq)]
pub enum ActionEffect {
    Nothing,
    EmitPaused(bool),
    EmitSpeed(u32),
    Quit,
}

/// The scheduler's state: the frame about to be presented, the virtual
/// origin, the instant the current pause began (when paused), the
/// one-shot seek marker, and the playback ratio.
pub struct PlaybackState {
    pub idx: usize,
    pub start_time: i128,
    pub paused_time: Option<i128>,
    pub force_update: bool,
    pub ratio: u32,
}

impl PlaybackState {
    pub open spec fn wf(self) -> bool {
        &&& valid_ratio(self.ratio)
        &&& -TIME_BOUND <= self.start_time <= TIME_BOUND
        &&& match self.paused_time {
            Some(t) => 0 <= t <= NOW_MAX,
            None => true,
        }
    }

    pub open spec fn paused(self) -> bool {
        self.paused_time is Some
    }

    /// The instant at which a frame with the given delay is due.
    pub open spec fn deadline(self, delay: u64) -> int {
        self.start_time + scaled_delay(delay as int, self.ratio as int)
    }

    pub fn new(pause_at_start: bool, speed: u32, now: i128) -> (r: PlaybackState)
        requires
            0 <= now <= NOW_MAX,
        ensures
            r.idx == 0,
            r.start_time == now,
            r.force_update == false,
            r.ratio == ratio_for_speed(speed),
            r.paused_time == (if pause_at_start {
                Some(now)
            } else {
                None::<i128>
            }),
            r.paused() == pause_at_start,
            r.wf(),
    {
        let ratio: u32 = match speed {
            0 => 1,
            1 => 2,
            2 => 4,
            3 => 8,
            4 => 16,
            5 => 32,
            6 => 64,
            7 => 128,
            _ => 256,
        };
        PlaybackState {
            idx: 0,
            start_time: now,
            paused_time: if pause_at_start {
                Some(now)
            } else {
                None
            },
            force_update: false,
            ratio,
        }
    }

    /// Decides what to do once the frame under the cursor is known to
    /// be available. A pending seek presents it at once and re-anchors
    /// the clock (with a small forward bias, and keeping a pause
    /// sticky); a pause with no seek keeps the scheduler suspended, so
    /// no transition is produced; otherwise the frame is due at its
    /// deadline.
    pub fn poll_frame(&mut self, delay: u64, now: i128) -> (plan: EmitPlan)
        requires
            old(self).wf(),
            0 <= now <= NOW_MAX,
            old(self).paused_time matches Some(t) ==> t <= now,
        ensures
            final(self).wf(),
            old(self).force_update ==> {
                &&& plan == EmitPlan::EmitNow
                &&& final(self).idx == old(self).idx
                &&& final(self).ratio == old(self).ratio
                &&& final(self).force_update == false
                &&& final(self).start_time == clamp_time(
                    now - scaled_delay(delay as int, old(self).ratio as int) + 200000,
                )
                &&& final(self).paused_time == (if old(self).paused() {
                    Some(now)
                } else {
                    None::<i128>
                })
            },
            !old(self).force_update && old(self).paused() ==> plan == EmitPlan::Suspend
                && *final(self) == *old(self),
            !old(self).force_update && !old(self).paused() ==> (plan matches EmitPlan::SleepUntil(d)
                && d == old(self).deadline(delay)) && *final(self) == *old(self),
    {
        if self.force_update {
            let sd = scaled_delay_exec(delay, self.ratio);
            let st = clamp_time_exec(now - sd + 200000);
            self.start_time = st;
            if self.paused_time.is_some() {
                self.paused_time = Some(now);
            }
            self.force_update = false;
            EmitPlan::EmitNow
        } else if self.paused_time.is_some() {
            EmitPlan::Suspend
        } else {
            let sd = scaled_delay_exec(delay, self.ratio);
            EmitPlan::SleepUntil(self.start_time + sd)
        }
    }

    /// Called after the transition for the frame under the cursor has
    /// been produced: the cursor moves one past it.
    pub fn frame_emitted(&mut self)
        requires
            old(self).idx < usize::MAX,
        ensures
            *final(self) == (PlaybackState { idx: (old(self).idx + 1) as usize, ..*old(self) }),
    {
        self.idx = self.idx + 1;
    }

    /// Called when the store is finished and the cursor is past its
    /// end: the cursor is left on the last frame and playback pauses,
    /// so the viewer stays on the final screen.
    pub fn on_no_more_frames(&mut self, count: usize, now: i128)
        requires
            count >= 1,
            0 <= now <= NOW_MAX,
        ensures
            *final(self) == (PlaybackState {
                idx: (count - 1) as usize,
                paused_time: Some(now),
                ..*old(self)
            }),
    {
        self.idx = count - 1;
        self.paused_time = Some(now);
    }

    /// Applies one user action. Seeks move the cursor and arm the
    /// one-shot `force_update`; speed changes rescale the elapsed
    /// virtual time so visible progress is continuous; pausing records
    /// the instant, resuming credits the paused span to the origin.
    pub fn apply_action(&mut self, action: TimerAction, now: i128, store: &FrameData) -> (eff:
        ActionEffect)
        requires
            old(self).wf(),
            0 <= now <= NOW_MAX,
            old(self).paused_time matches Some(t) ==> t <= now,
            action is LastFrame ==> store.frame_seq().len() >= 1,
        ensures
            final(self).wf(),
            match action {
                TimerAction::Pause => {
                    &&& final(self).idx == old(self).idx
                    &&& final(self).force_update == old(self).force_update
                    &&& final(self).ratio == old(self).ratio
                    &&& match old(self).paused_time {
                        Some(t) => final(self).paused_time is None && final(self).start_time
                            == clamp_time(old(self).start_time + (now - t)) && eff
                            == ActionEffect::EmitPaused(false),
                        None => final(self).paused_time == Some(now) && final(self).start_time
                            == old(self).start_time && eff == ActionEffect::EmitPaused(true),
                    }
                },
                TimerAction::FirstFrame => *final(self) == (PlaybackState {
                    idx: 0,
                    force_update: true,
                    ..*old(self)
                }) && eff == ActionEffect::Nothing,
                TimerAction::LastFrame => *final(self) == (PlaybackState {
                    idx: (store.frame_seq().len() - 1) as usize,
                    force_update: true,
                    ..*old(self)
                }) && eff == ActionEffect::Nothing,
                TimerAction::NextFrame => *final(self) == (PlaybackState {
                    force_update: true,
                    ..*old(self)
                }) && eff == ActionEffect::Nothing,
                TimerAction::PreviousFrame => *final(self) == (PlaybackState {
                    idx: if old(self).idx >= 2 {
                        (old(self).idx - 2) as usize
                    } else {
                        0
                    },
                    force_update: true,
                    ..*old(self)
                }) && eff == ActionEffect::Nothing,
                TimerAction::SpeedUp => if old(self).ratio > 1 {
                    &&& *final(self) == (PlaybackState {
                        ratio: old(self).ratio / 2,
                        start_time: clamp_time(
                            now - elapsed(now as int, old(self).start_time as int) / 2,
                        ) as i128,
                        ..*old(self)
                    })
                    &&& eff == ActionEffect::EmitSpeed(old(self).ratio / 2)
                } else {
                    *final(self) == *old(self) && eff == ActionEffect::Nothing
                },
                TimerAction::SlowDown => if old(self).ratio < 256 {
                    &&& *final(self) == (PlaybackState {
                        ratio: ((old(self).ratio * 2) as u32),
                        start_time: clamp_time(
                            now - elapsed(now as int, old(self).start_time as int) * 2,
                        ) as i128,
                        ..*old(self)
                    })
                    &&& eff == ActionEffect::EmitSpeed(((old(self).ratio * 2) as u32))
                } else {
                    *final(self) == *old(self) && eff == ActionEffect::Nothing
                },
                TimerAction::DefaultSpeed => {
                    &&& *final(self) == (PlaybackState {
                        ratio: 16,
                        start_time: clamp_time(
                            now - (elapsed(now as int, old(self).start_time as int) * 16) / (
                            old(self).ratio as int),
                        ) as i128,
                        ..*old(self)
                    })
                    &&& eff == ActionEffect::EmitSpeed(16)
                },
                TimerAction::Search(q, back) => {
                    &&& match (if back {
                        last_match_before(store.frame_seq(), old(self).idx as int, q@)
                    } else {
                        first_match_from(store.frame_seq(), old(self).idx as int, q@)
                    }) {
                        Some(j) => *final(self) == (PlaybackState {
                            idx: j as usize,
                            force_update: true,
                            ..*old(self)
                        }),
                        None => *final(self) == *old(self),
                    }
                    &&& eff == ActionEffect::Nothing
                },
                TimerAction::Quit => *final(self) == *old(self) && eff == ActionEffect::Quit,
            },
    {
        match action {
            TimerAction::Pause => {
                match self.paused_time {
                    Some(t) => {
                        self.paused_time = None;
                        self.start_time = clamp_time_exec(self.start_time + (now - t));
                        ActionEffect::EmitPaused(false)
                    },
                    None => {
                        self.paused_time = Some(now);
                        ActionEffect::EmitPaused(true)
                    },
                }
            },
            TimerAction::FirstFrame => {
                self.idx = 0;
                self.force_update = true;
                ActionEffect::Nothing
            },
            TimerAction::LastFrame => {
                self.idx = store.count() - 1;
                self.force_update = true;
                ActionEffect::Nothing
            },
            TimerAction::NextFrame => {
                self.force_update = true;
                ActionEffect::Nothing
            },
            TimerAction::PreviousFrame => {
                self.idx = if self.idx >= 2 {
                    self.idx - 2
                } else {
                    0
                };
                self.force_update = true;
                ActionEffect::Nothing
            },
            TimerAction::SpeedUp => {
                if self.ratio > 1 {
                    self.ratio = self.ratio / 2;
                    let e = elapsed_exec(now, self.start_time);
                    let h = half_exec(e);
                    self.start_time = clamp_time_exec(now - h);
                    ActionEffect::EmitSpeed(self.ratio)
                } else {
                    ActionEffect::Nothing
                }
            },
            TimerAction::SlowDown => {
                if self.ratio < 256 {
                    self.ratio = self.ratio * 2;
                    let e = elapsed_exec(now, self.start_time);
                    self.start_time = clamp_time_exec(now - e * 2);
                    ActionEffect::EmitSpeed(self.ratio)
                } else {
                    ActionEffect::Nothing
                }
            },
            TimerAction::DefaultSpeed => {
                let e = elapsed_exec(now, self.start_time);
                let scaled = mul16_div_ratio_exec(e, self.ratio);
                self.ratio = 16;
                self.start_time = clamp_time_exec(now - scaled);
                ActionEffect::EmitSpeed(16)
            },
            TimerAction::Search(q, back) => {
                match store.search(self.idx, q.as_str(), back) {
                    Some(new_idx) => {
                        self.idx = new_idx;
                        self.force_update = true;
                    },
                    None => {},
                }
                ActionEffect::Nothing
            },
            TimerAction::Quit => ActionEffect::Quit,
        }
    }
}

/// At the default ratio the schedule advances at the recorded rate:
/// the gap between any two deadlines equals the gap between the
/// recorded delays.
pub proof fn lemma_default_speed_real_time(s: PlaybackState, d1: u64, d2: u64)
    requires
        s.ratio == 16,
    ensures
        s.deadline(d2) - s.deadline(d1) == d2 - d1,
{
    assert((d1 as int * 16) / 16 == d1 as int) by (nonlinear_arith);
    assert((d2 as int * 16) / 16 == d2 as int) by (nonlinear_arith);
}

} // verus!
