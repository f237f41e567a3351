//! The frame store: an append-only log of screen snapshots, each with
//! the time offset (in microseconds, on the clamped timeline) at which
//! it becomes current. Supports random access, textual search, and a
//! level check for waiting on a frame that may not have arrived yet.

use vstd::prelude::*;

use crate::text::chars_of_str;
use crate::text::contains_chars;
use crate::text::contains_seq;
use crate::vt::screen_contents;
use crate::vt::screen_contents_string;

verus! {

/// One frame of the recording: an opaque screen snapshot plus the
/// scheduling offset, in microseconds, of the instant it becomes
/// current (measured from the virtual start of playback).
pub struct Frame {
    pub screen: vt100::Screen,
    pub delay: u64,
}

impl Frame {
    pub fn new(screen: vt100::Screen, delay: u64) -> (r: Frame)
        ensures
            r.screen == screen,
            r.delay == delay,
    {
        Frame { screen, delay }
    }

    pub fn into_screen(self) -> (r: vt100::Screen)
        ensures
            r == self.screen,
    {
        self.screen
    }

    pub fn delay(&self) -> (r: u64)
        ensures
            r == self.delay,
    {
        self.delay
    }
}

impl Clone for Frame {
    fn clone(&self) -> (r: Self)
        ensures
            r == *self,
    {
        Frame { screen: self.screen.clone(), delay: self.delay }
    }
}

/// The frame at index `j` exists and its visible text contains `q`.
pub open spec fn frame_has_match(frames: Seq<Frame>, j: int, q: Seq<char>) -> bool {
    0 <= j < frames.len() && contains_seq(screen_contents(frames[j].screen), q)
}

/// The least index `>= j` whose frame matches `q`, if any.
pub open spec fn first_match_from(frames: Seq<Frame>, j: int, q: Seq<char>) -> Option<int>
    decreases frames.len() - j,
{
    if j >= frames.len() {
        None
    } else if frame_has_match(frames, j, q) {
        Some(j)
    } else if j < 0 {
        None
    } else {
        first_match_from(frames, j + 1, q)
    }
}

/// The greatest index `< hi` whose frame matches `q`, if any.
pub open spec fn last_match_before(frames: Seq<Frame>, hi: int, q: Seq<char>) -> Option<int>
    decreases hi,
{
    if hi <= 0 {
        None
    } else if frame_has_match(frames, hi - 1, q) {
        Some(hi - 1)
    } else {
        last_match_before(frames, hi - 1, q)
    }
}

/// A forward search's result is the least matching index at or after
/// the start position, and a miss means no index at or after it
/// matches.
pub proof fn lemma_first_match_is_least(frames: Seq<Frame>, start: int, q: Seq<char>)
    requires
        start >= 0,
    ensures
        match first_match_from(frames, start, q) {
            Some(j) => start <= j < frames.len() && frame_has_match(frames, j, q) && forall|
                k: int,
            | start <= k < j ==> !frame_has_match(frames, k, q),
            None => forall|k: int| start <= k < frames.len() ==> !frame_has_match(frames, k, q),
        },
    decreases frames.len() - start,
{
    if start >= frames.len() {
    } else if frame_has_match(frames, start, q) {
    } else {
        lemma_first_match_is_least(frames, start + 1, q);
    }
}

/// A backward search's result is the greatest matching index below the
/// start position, and a miss means no index below it matches.
pub proof fn lemma_last_match_is_greatest(frames: Seq<Frame>, hi: int, q: Seq<char>)
    ensures
        match last_match_before(frames, hi, q) {
            Some(j) => 0 <= j < hi && frame_has_match(frames, j, q) && forall|k: int|
                j < k < hi ==> !frame_has_match(frames, k, q),
            None => forall|k: int| k < hi ==> !frame_has_match(frames, k, q),
        },
    decreases hi,
{
    if hi <= 0 {
    } else if frame_has_match(frames, hi - 1, q) {
    } else {
        lemma_last_match_is_greatest(frames, hi - 1, q);
    }
}

proof fn lemma_last_match_high_start(frames: Seq<Frame>, hi: int, q: Seq<char>)
    requires
        hi >= frames.len(),
    ensures
        last_match_before(frames, hi, q) == last_match_before(
            frames,
            frames.len() as int,
            q,
        ),
    decreases hi,
{
    if hi > frames.len() && hi > 0 {
        lemma_last_match_high_start(frames, hi - 1, q);
    }
}

/// The growing, append-only log of frames, together with the flag that
/// the reader has finished; once the flag is set the log is frozen.
pub struct FrameData {
    frames: Vec<Frame>,
    done_reading: bool,
}

impl FrameData {
    /// The frames appended so far, in order.
    pub closed spec fn frame_seq(self) -> Seq<Frame> {
        self.frames@
    }

    /// Whether the reader has announced that no more frames will come.
    pub closed spec fn done(self) -> bool {
        self.done_reading
    }

    pub fn new() -> (r: FrameData)
        ensures
            r.frame_seq() == Seq::<Frame>::empty(),
            !r.done(),
    {
        let r = FrameData { frames: Vec::new(), done_reading: false };
        proof {
            assert(r.frame_seq() =~= Seq::<Frame>::empty());
        }
        r
    }

    /// A copy of the frame at index `i`, or nothing when `i` is past
    /// the end of the log.
    pub fn get(&self, i: usize) -> (r: Option<Frame>)
        ensures
            i < self.frame_seq().len() ==> r == Some(self.frame_seq()[i as int]),
            i >= self.frame_seq().len() ==> r is None,
    {
        if i < self.frames.len() {
            Some(self.frames[i].clone())
        } else {
            None
        }
    }

    /// Whether `done_reading` has been called.
    pub fn finished(&self) -> (b: bool)
        ensures
            b == self.done(),
    {
        self.done_reading
    }

    pub fn count(&self) -> (r: usize)
        ensures
            r == self.frame_seq().len(),
    {
        self.frames.len()
    }

    /// Appends a frame. The count grows by exactly one, so it never
    /// decreases; appending is only allowed while the store is not yet
    /// finished.
    pub fn add_frame(&mut self, frame: Frame)
        requires
            !old(self).done(),
        ensures
            final(self).frame_seq() == old(self).frame_seq().push(frame),
            final(self).frame_seq().len() == old(self).frame_seq().len() + 1,
            !final(self).done(),
    {
        self.frames.push(frame);
    }

    /// Marks the store finished. The frames, and so the count, are
    /// left exactly as they were, and stay frozen from here on.
    pub fn done_reading(&mut self)
        ensures
            final(self).frame_seq() == old(self).frame_seq(),
            final(self).frame_seq().len() == old(self).frame_seq().len(),
            final(self).done(),
    {
        self.done_reading = true;
    }

    /// The level check of the wait primitive: `Some(true)` when frame
    /// `i` is already present, `Some(false)` when the store is finished
    /// without it (so it never will be), and `None` when the caller
    /// must wait for the store to change.
    pub fn wait_for_frame(&self, i: usize) -> (r: Option<bool>)
        ensures
            r == Some(true) <==> i < self.frame_seq().len(),
            r == Some(false) <==> (i >= self.frame_seq().len() && self.done()),
            r is None <==> (i >= self.frame_seq().len() && !self.done()),
    {
        if i < self.frames.len() {
            Some(true)
        } else if self.done_reading {
            Some(false)
        } else {
            None
        }
    }

    /// Searches the visible text of the stored frames for `query`.
    /// Forward: the least matching index at or after `start`.
    /// Backward: the greatest matching index strictly below `start`.
    pub fn search(&self, start: usize, query: &str, backwards: bool) -> (r: Option<usize>)
        ensures
            !backwards ==> match r {
                Some(j) => first_match_from(self.frame_seq(), start as int, query@) == Some(
                    j as int,
                ),
                None => first_match_from(self.frame_seq(), start as int, query@) is None,
            },
            backwards ==> match r {
                Some(j) => last_match_before(self.frame_seq(), start as int, query@) == Some(
                    j as int,
                ),
                None => last_match_before(self.frame_seq(), start as int, query@) is None,
            },
    {
        let q = chars_of_str(query);
        let n = self.frames.len();
        if backwards {
            let hi: usize = if start < n {
                start
            } else {
                proof {
                    lemma_last_match_high_start(self.frame_seq(), start as int, query@);
                }
                n
            };
            let mut j: usize = hi;
            while j > 0
                invariant
                    backwards,
                    j <= n,
                    n == self.frame_seq().len(),
                    q@ == query@,
                    last_match_before(self.frame_seq(), start as int, query@) == last_match_before(
                        self.frame_seq(),
                        j as int,
                        query@,
                    ),
                decreases j,
            {
                let hay_string = screen_contents_string(&self.frames[j - 1].screen);
                let hay = chars_of_str(hay_string.as_str());
                if contains_chars(&hay, &q) {
                    proof {
                        assert(frame_has_match(self.frame_seq(), j - 1, query@));
                        assert(last_match_before(self.frame_seq(), j as int, query@) == Some(
                            j - 1,
                        ));
                    }
                    return Some(j - 1);
                }
                proof {
                    assert(!frame_has_match(self.frame_seq(), j - 1, query@));
                    assert(last_match_before(self.frame_seq(), j as int, query@)
                        == last_match_before(self.frame_seq(), j - 1, query@));
                }
                j = j - 1;
            }
            None
        } else {
            let mut j: usize = start;
            if j > n {
                return None;
            }
            while j < n
                invariant
                    !backwards,
                    start <= j <= n,
                    n == self.frame_seq().len(),
                    q@ == query@,
                    first_match_from(self.frame_seq(), start as int, query@) == first_match_from(
                        self.frame_seq(),
                        j as int,
                        query@,
                    ),
                decreases n - j,
            {
                let hay_string = screen_contents_string(&self.frames[j].screen);
                let hay = chars_of_str(hay_string.as_str());
                if contains_chars(&hay, &q) {
                    proof {
                        assert(frame_has_match(self.frame_seq(), j as int, query@));
                        assert(first_match_from(self.frame_seq(), j as int, query@) == Some(
                            j as int,
                        ));
                    }
                    return Some(j);
                }
                proof {
                    assert(!frame_has_match(self.frame_seq(), j as int, query@));
                    assert(first_match_from(self.frame_seq(), j as int, query@)
                        == first_match_from(self.frame_seq(), j + 1, query@));
                }
                j = j + 1;
            }
            None
        }
    }
}

} // verus!
