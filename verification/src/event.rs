//! Events flowing between the reader, the scheduler, the input thread
//! and the presenter, and the coalescer that merges bursts of them.
//! The coalescer keeps at most one pending value per latest-wins slot,
//! cancels paired toggles, queues timer actions in order, and drains
//! with a fixed priority: errors first, then quit, then user intent,
//! then view updates.

use std::collections::VecDeque;
use vstd::prelude::*;

verus! {

/// A user action owned by the scheduler.
#[derive(Debug, PartialEq, Eq)]
pub enum TimerAction {
    Pause,
    FirstFrame,
    LastFrame,
    NextFrame,
    PreviousFrame,
    SpeedUp,
    SlowDown,
    DefaultSpeed,
    Search(String, bool),
    Quit,
}

/// An event for the presenter loop.
pub enum Event {
    FrameTransition(usize, vt100::Screen),
    FrameLoaded(Option<usize>),
    Paused(bool),
    Speed(u32),
    TimerAction(TimerAction),
    ToggleUi,
    ToggleHelp,
    ActiveSearch(String),
    CancelSearch,
    RunSearch(String, bool),
    Error(String),
    Quit,
}

/// The mathematical contents of the coalescer: one slot per
/// latest-wins event, the toggle one-shots, and the action queue.
#[verifier::ext_equal]
pub ghost struct PendingView {
    pub render: Option<(usize, vt100::Screen)>,
    pub frame_loaded: Option<usize>,
    pub done_loading: bool,
    pub paused: Option<bool>,
    pub speed: Option<u32>,
    pub timer_actions: Seq<TimerAction>,
    pub toggle_ui: bool,
    pub toggle_help: bool,
    pub active_search: Option<String>,
    pub cancel_search: bool,
    pub run_search: Option<(String, bool)>,
    pub error: Option<String>,
    pub quit: bool,
}

/// The coalescer with nothing pending.
pub open spec fn empty_pending() -> PendingView {
    PendingView {
        render: None,
        frame_loaded: None,
        done_loading: false,
        paused: None,
        speed: None,
        timer_actions: Seq::empty(),
        toggle_ui: false,
        toggle_help: false,
        active_search: None,
        cancel_search: false,
        run_search: None,
        error: None,
        quit: false,
    }
}

/// How one arriving event merges into the pending contents:
/// latest-wins slots overwrite, toggles flip (so a pair cancels),
/// timer actions queue in order, and the three search events
/// overwrite one another as a group.
pub open spec fn coalesce(v: PendingView, e: Event) -> PendingView {
    match e {
        Event::FrameTransition(i, s) => PendingView { render: Some((i, s)), ..v },
        Event::FrameLoaded(n) => match n {
            Some(i) => PendingView { frame_loaded: Some(i), ..v },
            None => PendingView { done_loading: true, ..v },
        },
        Event::Paused(p) => PendingView { paused: Some(p), ..v },
        Event::Speed(r) => PendingView { speed: Some(r), ..v },
        Event::TimerAction(a) => PendingView { timer_actions: v.timer_actions.push(a), ..v },
        Event::ToggleUi => PendingView { toggle_ui: !v.toggle_ui, ..v },
        Event::ToggleHelp => PendingView { toggle_help: !v.toggle_help, ..v },
        Event::ActiveSearch(s) => PendingView {
            active_search: Some(s),
            cancel_search: false,
            run_search: None,
            ..v
        },
        Event::CancelSearch => PendingView {
            active_search: None,
            cancel_search: true,
            run_search: None,
            ..v
        },
        Event::RunSearch(s, b) => PendingView {
            active_search: None,
            cancel_search: false,
            run_search: Some((s, b)),
            ..v
        },
        Event::Error(m) => PendingView { error: Some(m), ..v },
        Event::Quit => PendingView { quit: true, ..v },
    }
}

/// Whether anything is waiting to be drained.
pub open spec fn has_pending(v: PendingView) -> bool {
    ||| v.error is Some
    ||| v.quit
    ||| v.timer_actions.len() > 0
    ||| v.active_search is Some
    ||| v.cancel_search
    ||| v.run_search is Some
    ||| v.toggle_ui
    ||| v.toggle_help
    ||| v.paused is Some
    ||| v.speed is Some
    ||| v.frame_loaded is Some
    ||| v.done_loading
    ||| v.render is Some
}

/// The event surfaced by one drain call, in the fixed priority order:
/// error, quit, queued timer actions, active search, cancel, run,
/// the UI toggle, the help toggle, paused, speed, the loaded count,
/// the done marker, and last the frame transition.
pub open spec fn next_event(v: PendingView) -> Option<Event> {
    if v.error is Some {
        Some(Event::Error(v.error.unwrap()))
    } else if v.quit {
        Some(Event::Quit)
    } else if v.timer_actions.len() > 0 {
        Some(Event::TimerAction(v.timer_actions[0]))
    } else if v.active_search is Some {
        Some(Event::ActiveSearch(v.active_search.unwrap()))
    } else if v.cancel_search {
        Some(Event::CancelSearch)
    } else if v.run_search is Some {
        Some(Event::RunSearch(v.run_search.unwrap().0, v.run_search.unwrap().1))
    } else if v.toggle_ui {
        Some(Event::ToggleUi)
    } else if v.toggle_help {
        Some(Event::ToggleHelp)
    } else if v.paused is Some {
        Some(Event::Paused(v.paused.unwrap()))
    } else if v.speed is Some {
        Some(Event::Speed(v.speed.unwrap()))
    } else if v.frame_loaded is Some {
        Some(Event::FrameLoaded(Some(v.frame_loaded.unwrap())))
    } else if v.done_loading {
        Some(Event::FrameLoaded(None))
    } else if v.render is Some {
        Some(Event::FrameTransition(v.render.unwrap().0, v.render.unwrap().1))
    } else {
        None
    }
}

/// The pending contents after one drain call: the slot that was
/// surfaced is cleared, everything else stays.
pub open spec fn after_get(v: PendingView) -> PendingView {
    if v.error is Some {
        PendingView { error: None, ..v }
    } else if v.quit {
        PendingView { quit: false, ..v }
    } else if v.timer_actions.len() > 0 {
        PendingView { timer_actions: v.timer_actions.drop_first(), ..v }
    } else if v.active_search is Some {
        PendingView { active_search: None, ..v }
    } else if v.cancel_search {
        PendingView { cancel_search: false, ..v }
    } else if v.run_search is Some {
        PendingView { run_search: None, ..v }
    } else if v.toggle_ui {
        PendingView { toggle_ui: false, ..v }
    } else if v.toggle_help {
        PendingView { toggle_help: false, ..v }
    } else if v.paused is Some {
        PendingView { paused: None, ..v }
    } else if v.speed is Some {
        PendingView { speed: None, ..v }
    } else if v.frame_loaded is Some {
        PendingView { frame_loaded: None, ..v }
    } else if v.done_loading {
        PendingView { done_loading: false, ..v }
    } else if v.render is Some {
        PendingView { render: None, ..v }
    } else {
        v
    }
}

/// The coalescer's store of pending events.
pub struct Pending {
    render: Option<(usize, vt100::Screen)>,
    frame_loaded: Option<usize>,
    done_loading: bool,
    paused: Option<bool>,
    speed: Option<u32>,
    timer_actions: VecDeque<TimerAction>,
    toggle_ui: bool,
    toggle_help: bool,
    active_search: Option<String>,
    cancel_search: bool,
    run_search: Option<(String, bool)>,
    error: Option<String>,
    quit: bool,
}

impl View for Pending {
    type V = PendingView;

    closed spec fn view(&self) -> PendingView {
        PendingView {
            render: self.render,
            frame_loaded: self.frame_loaded,
            done_loading: self.done_loading,
            paused: self.paused,
            speed: self.speed,
            timer_actions: self.timer_actions@,
            toggle_ui: self.toggle_ui,
            toggle_help: self.toggle_help,
            active_search: self.active_search,
            cancel_search: self.cancel_search,
            run_search: self.run_search,
            error: self.error,
            quit: self.quit,
        }
    }
}

impl Pending {
    pub fn new() -> (r: Pending)
        ensures
            r@ == empty_pending(),
    {
        let r = Pending {
            render: None,
            frame_loaded: None,
            done_loading: false,
            paused: None,
            speed: None,
            timer_actions: VecDeque::new(),
            toggle_ui: false,
            toggle_help: false,
            active_search: None,
            cancel_search: false,
            run_search: None,
            error: None,
            quit: false,
        };
        proof {
            assert(r@ =~= empty_pending());
        }
        r
    }

    /// Merges one arriving event into the pending contents.
    pub fn event(&mut self, event: Event)
        ensures
            final(self)@ == coalesce(old(self)@, event),
    {
        let ghost ev = event;
        match event {
            Event::FrameTransition(idx, screen) => {
                self.render = Some((idx, screen));
            },
            Event::FrameLoaded(idx) => {
                match idx {
                    Some(idx) => {
                        self.frame_loaded = Some(idx);
                    },
                    None => {
                        self.done_loading = true;
                    },
                }
            },
            Event::Paused(paused) => {
                self.paused = Some(paused);
            },
            Event::Speed(speed) => {
                self.speed = Some(speed);
            },
            Event::TimerAction(action) => {
                self.timer_actions.push_back(action);
            },
            Event::ToggleUi => {
                self.toggle_ui = !self.toggle_ui;
            },
            Event::ToggleHelp => {
                self.toggle_help = !self.toggle_help;
            },
            Event::ActiveSearch(s) => {
                self.active_search = Some(s);
                self.cancel_search = false;
                self.run_search = None;
            },
            Event::CancelSearch => {
                self.active_search = None;
                self.cancel_search = true;
                self.run_search = None;
            },
            Event::RunSearch(s, backwards) => {
                self.active_search = None;
                self.cancel_search = false;
                self.run_search = Some((s, backwards));
            },
            Event::Error(m) => {
                self.error = Some(m);
            },
            Event::Quit => {
                self.quit = true;
            },
        }
        proof {
            assert(self@ =~= coalesce(old(self)@, ev));
        }
    }

    /// Whether a drain call would surface anything.
    pub fn has_event(&self) -> (b: bool)
        ensures
            b == has_pending(self@),
    {
        self.render.is_some() || self.frame_loaded.is_some() || self.done_loading
            || self.paused.is_some() || self.speed.is_some() || self.timer_actions.len() > 0
            || self.toggle_ui || self.toggle_help || self.active_search.is_some()
            || self.cancel_search || self.run_search.is_some() || self.error.is_some() || self.quit
    }

    /// Surfaces the highest-priority pending event and clears its
    /// slot, or reports that nothing is pending.
    pub fn get_event(&mut self) -> (r: Option<Event>)
        ensures
            r == next_event(old(self)@),
            final(self)@ == after_get(old(self)@),
    {
        let r = if let Some(m) = self.error.take() {
            Some(Event::Error(m))
        } else if self.quit {
            self.quit = false;
            Some(Event::Quit)
        } else if let Some(action) = self.timer_actions.pop_front() {
            Some(Event::TimerAction(action))
        } else if let Some(s) = self.active_search.take() {
            Some(Event::ActiveSearch(s))
        } else if self.cancel_search {
            self.cancel_search = false;
            Some(Event::CancelSearch)
        } else if let Some(sb) = self.run_search.take() {
            Some(Event::RunSearch(sb.0, sb.1))
        } else if self.toggle_ui {
            self.toggle_ui = false;
            Some(Event::ToggleUi)
        } else if self.toggle_help {
            self.toggle_help = false;
            Some(Event::ToggleHelp)
        } else if let Some(p) = self.paused.take() {
            Some(Event::Paused(p))
        } else if let Some(speed) = self.speed.take() {
            Some(Event::Speed(speed))
        } else if let Some(n) = self.frame_loaded.take() {
            Some(Event::FrameLoaded(Some(n)))
        } else if self.done_loading {
            self.done_loading = false;
            Some(Event::FrameLoaded(None))
        } else if let Some(is) = self.render.take() {
            Some(Event::FrameTransition(is.0, is.1))
        } else {
            None
        };
        proof {
            assert(self@ =~= after_get(old(self)@));
        }
        r
    }
}

} // verus!
