//! The presenter's pure view state: the screen being shown, the frame
//! counters, the pause/speed flags, the chrome toggles and the search
//! buffer, together with the decision of what chrome a render pass
//! must draw.

use vstd::prelude::*;

use crate::event::Event;
use crate::event::TimerAction;

verus! {

/// What one event asks of the presenter loop besides the state
/// change: forward an action to the scheduler, render, forward a
/// search and render, fail with a message, or leave the loop.
pub enum PresenterStep {
    Forward(TimerAction),
    Render,
    ForwardSearch(String, bool),
    Fail(String),
    Quit,
}

/// The chrome decisions of one render pass: whether the overlay is
/// drawn at all, whether the help panel is drawn, the speed label (only
/// away from the recorded rate), the search prompt, and the counters.
pub struct RenderPlan {
    pub show_chrome: bool,
    pub show_help: bool,
    pub speed_shown: Option<u32>,
    pub search: Option<String>,
    pub current_frame: usize,
    pub total_frames: usize,
    pub done_loading: bool,
}

/// The presenter's view state.
pub struct Display {
    pub screen: vt100::Screen,
    pub current_frame: usize,
    pub total_frames: usize,
    pub done_loading: bool,
    pub paused: bool,
    pub speed: u32,
    pub show_ui: bool,
    pub show_help: bool,
    pub active_search: Option<String>,
}

impl Display {
    pub fn new() -> (r: Display)
        ensures
            r.current_frame == 0,
            r.total_frames == 0,
            !r.done_loading,
            !r.paused,
            r.speed == 16,
            r.show_ui,
            !r.show_help,
            r.active_search is None,
    {
        let parser = vt100::Parser::new(24, 80, 0);
        Display {
            screen: parser.screen().clone(),
            current_frame: 0,
            total_frames: 0,
            done_loading: false,
            paused: false,
            speed: 16,
            show_ui: true,
            show_help: false,
            active_search: None,
        }
    }

    pub fn screen(&mut self, screen: vt100::Screen)
        ensures
            *final(self) == (Display { screen, ..*old(self) }),
    {
        self.screen = screen;
    }

    pub fn current_frame(&mut self, idx: usize)
        ensures
            *final(self) == (Display { current_frame: idx, ..*old(self) }),
    {
        self.current_frame = idx;
    }

    pub fn total_frames(&mut self, n: usize)
        ensures
            *final(self) == (Display { total_frames: n, ..*old(self) }),
    {
        self.total_frames = n;
    }

    pub fn done_loading(&mut self)
        ensures
            *final(self) == (Display { done_loading: true, ..*old(self) }),
    {
        self.done_loading = true;
    }

    pub fn paused(&mut self, paused: bool)
        ensures
            *final(self) == (Display { paused, ..*old(self) }),
    {
        self.paused = paused;
    }

    pub fn speed(&mut self, speed: u32)
        ensures
            *final(self) == (Display { speed, ..*old(self) }),
    {
        self.speed = speed;
    }

    pub fn toggle_ui(&mut self)
        ensures
            *final(self) == (Display { show_ui: !old(self).show_ui, ..*old(self) }),
    {
        self.show_ui = !self.show_ui;
    }

    pub fn toggle_help(&mut self)
        ensures
            *final(self) == (Display { show_help: !old(self).show_help, ..*old(self) }),
    {
        self.show_help = !self.show_help;
    }

    pub fn active_search(&mut self, s: String)
        ensures
            *final(self) == (Display { active_search: Some(s), ..*old(self) }),
    {
        self.active_search = Some(s);
    }

    pub fn clear_search(&mut self)
        ensures
            *final(self) == (Display { active_search: None, ..*old(self) }),
    {
        self.active_search = None;
    }

    /// Applies one drained event to the view state and says what the
    /// presenter loop must do next.
    pub fn apply_event(&mut self, event: Event) -> (step: PresenterStep)
        ensures
            match event {
                Event::TimerAction(a) => *final(self) == *old(self) && step
                    == PresenterStep::Forward(a),
                Event::FrameTransition(i, s) => *final(self) == (Display {
                    screen: s,
                    current_frame: i,
                    ..*old(self)
                }) && step is Render,
                Event::FrameLoaded(n) => match n {
                    Some(n) => *final(self) == (Display { total_frames: n, ..*old(self) })
                        && step is Render,
                    None => *final(self) == (Display { done_loading: true, ..*old(self) })
                        && step is Render,
                },
                Event::Paused(p) => *final(self) == (Display { paused: p, ..*old(self) })
                    && step is Render,
                Event::Speed(r) => *final(self) == (Display { speed: r, ..*old(self) })
                    && step is Render,
                Event::ToggleUi => *final(self) == (Display {
                    show_ui: !old(self).show_ui,
                    ..*old(self)
                }) && step is Render,
                Event::ToggleHelp => *final(self) == (Display {
                    show_help: !old(self).show_help,
                    ..*old(self)
                }) && step is Render,
                Event::ActiveSearch(s) => *final(self) == (Display {
                    active_search: Some(s),
                    ..*old(self)
                }) && step is Render,
                Event::CancelSearch => *final(self) == (Display {
                    active_search: None,
                    ..*old(self)
                }) && step is Render,
                Event::RunSearch(s, b) => *final(self) == (Display {
                    active_search: None,
                    ..*old(self)
                }) && step == PresenterStep::ForwardSearch(s, b),
                Event::Error(m) => *final(self) == *old(self) && step == PresenterStep::Fail(m),
                Event::Quit => *final(self) == *old(self) && step is Quit,
            },
    {
        match event {
            Event::TimerAction(action) => PresenterStep::Forward(action),
            Event::FrameTransition(idx, screen) => {
                self.screen(screen);
                self.current_frame(idx);
                PresenterStep::Render
            },
            Event::FrameLoaded(n) => {
                match n {
                    Some(n) => self.total_frames(n),
                    None => self.done_loading(),
                }
                PresenterStep::Render
            },
            Event::Paused(paused) => {
                self.paused(paused);
                PresenterStep::Render
            },
            Event::Speed(speed) => {
                self.speed(speed);
                PresenterStep::Render
            },
            Event::ToggleUi => {
                self.toggle_ui();
                PresenterStep::Render
            },
            Event::ToggleHelp => {
                self.toggle_help();
                PresenterStep::Render
            },
            Event::ActiveSearch(s) => {
                self.active_search(s);
                PresenterStep::Render
            },
            Event::CancelSearch => {
                self.clear_search();
                PresenterStep::Render
            },
            Event::RunSearch(s, backwards) => {
                self.clear_search();
                PresenterStep::ForwardSearch(s, backwards)
            },
            Event::Error(m) => PresenterStep::Fail(m),
            Event::Quit => PresenterStep::Quit,
        }
    }

    /// The chrome of one render pass: the overlay only while paused
    /// with the UI visible; within it the help panel on request and
    /// the speed label away from the recorded rate; the search prompt
    /// whenever a search is being entered, independent of pause.
    pub fn render_plan(&self) -> (r: RenderPlan)
        ensures
            r.show_chrome == (self.paused && self.show_ui),
            r.show_help == (self.paused && self.show_ui && self.show_help),
            r.speed_shown == (if self.paused && self.show_ui && self.speed != 16 {
                Some(self.speed)
            } else {
                None::<u32>
            }),
            r.search == self.active_search,
            r.current_frame == self.current_frame,
            r.total_frames == self.total_frames,
            r.done_loading == self.done_loading,
    {
        let show_chrome = self.paused && self.show_ui;
        RenderPlan {
            show_chrome,
            show_help: show_chrome && self.show_help,
            speed_shown: if show_chrome && self.speed != 16 {
                Some(self.speed)
            } else {
                None
            },
            search: match &self.active_search {
                Some(s) => Some(s.clone()),
                None => None,
            },
            current_frame: self.current_frame,
            total_frames: self.total_frames,
            done_loading: self.done_loading,
        }
    }
}

} // verus!
