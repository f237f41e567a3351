//! The input translator: a modal map from keystrokes to events. In
//! normal mode each bound key becomes an event (frame, pause and speed
//! keys as timer actions, so the scheduler owns them); after `/` the
//! translator is in search-entry mode, where characters build a query.

use vstd::prelude::*;

use crate::event::Event;
use crate::event::TimerAction;
use crate::text::string_push;
use crate::text::string_pop;

verus! {

/// What the library reads of a keystroke: a printable character, a
/// control key, backspace, escape, or any other key (ignored).
#[derive(Debug, Clone, Copy, PartialEq, Eq)]
pub enum Key {
    Char(char),
    Ctrl(u8),
    Backspace,
    Escape,
    Other,
}

/// A string with its last character removed, if it has one.
pub open spec fn popped(s: Seq<char>) -> Seq<char> {
    if s.len() == 0 {
        s
    } else {
        s.drop_last()
    }
}

/// The translator's mode: the search buffer while in search-entry
/// mode, and the query of the last run search.
pub struct InputState {
    pub search: Option<String>,
    pub prev_search: Option<String>,
}

impl InputState {
    pub fn new() -> (r: InputState)
        ensures
            r.search is None,
            r.prev_search is None,
    {
        InputState { search: None, prev_search: None }
    }

    /// Translates one keystroke, updating the mode and producing the
    /// event to send, if any.
    pub fn handle_key(&mut self, key: Key) -> (out: Option<Event>)
        ensures
            match old(self).search {
                Some(buf) => match key {
                    Key::Char(c) => {
                        &&& final(self).prev_search == old(self).prev_search
                        &&& final(self).search matches Some(b) && b@ == buf@.push(c)
                        &&& out matches Some(Event::ActiveSearch(s)) && s@ == buf@.push(c)
                    },
                    Key::Backspace => {
                        &&& final(self).prev_search == old(self).prev_search
                        &&& final(self).search matches Some(b) && b@ == popped(buf@)
                        &&& out matches Some(Event::ActiveSearch(s)) && s@ == popped(buf@)
                    },
                    Key::Ctrl(b) => if b == 109 {
                        &&& final(self).search is None
                        &&& final(self).prev_search matches Some(p) && p@ == buf@
                        &&& out matches Some(Event::RunSearch(s, back)) && s@ == buf@ && back
                            == false
                    } else {
                        *final(self) == *old(self) && out is None
                    },
                    Key::Escape => {
                        &&& final(self).search is None
                        &&& final(self).prev_search == old(self).prev_search
                        &&& out == Some(Event::CancelSearch)
                    },
                    Key::Other => *final(self) == *old(self) && out is None,
                },
                None => match key {
                    Key::Char(c) => if c == '0' {
                        *final(self) == *old(self) && out == Some(
                            Event::TimerAction(TimerAction::FirstFrame),
                        )
                    } else if c == '$' {
                        *final(self) == *old(self) && out == Some(
                            Event::TimerAction(TimerAction::LastFrame),
                        )
                    } else if c == 'l' {
                        *final(self) == *old(self) && out == Some(
                            Event::TimerAction(TimerAction::NextFrame),
                        )
                    } else if c == 'h' {
                        *final(self) == *old(self) && out == Some(
                            Event::TimerAction(TimerAction::PreviousFrame),
                        )
                    } else if c == 'q' {
                        *final(self) == *old(self) && out == Some(Event::Quit)
                    } else if c == ' ' {
                        *final(self) == *old(self) && out == Some(
                            Event::TimerAction(TimerAction::Pause),
                        )
                    } else if c == '?' {
                        *final(self) == *old(self) && out == Some(Event::ToggleHelp)
                    } else if c == '+' {
                        *final(self) == *old(self) && out == Some(
                            Event::TimerAction(TimerAction::SpeedUp),
                        )
                    } else if c == '-' {
                        *final(self) == *old(self) && out == Some(
                            Event::TimerAction(TimerAction::SlowDown),
                        )
                    } else if c == '=' {
                        *final(self) == *old(self) && out == Some(
                            Event::TimerAction(TimerAction::DefaultSpeed),
                        )
                    } else if c == '/' {
                        &&& final(self).prev_search == old(self).prev_search
                        &&& final(self).search matches Some(b) && b@ == Seq::<char>::empty()
                        &&& out matches Some(Event::ActiveSearch(s)) && s@ == Seq::<char>::empty()
                    } else if c == 'n' {
                        &&& *final(self) == *old(self)
                        &&& match old(self).prev_search {
                            Some(p) => out matches Some(Event::RunSearch(s, back)) && s@ == p@
                                && back == false,
                            None => out is None,
                        }
                    } else if c == 'p' {
                        &&& *final(self) == *old(self)
                        &&& match old(self).prev_search {
                            Some(p) => out matches Some(Event::RunSearch(s, back)) && s@ == p@
                                && back == true,
                            None => out is None,
                        }
                    } else {
                        *final(self) == *old(self) && out is None
                    },
                    Key::Ctrl(b) => if b == 105 {
                        *final(self) == *old(self) && out == Some(Event::ToggleUi)
                    } else {
                        *final(self) == *old(self) && out is None
                    },
                    Key::Backspace => *final(self) == *old(self) && out is None,
                    Key::Escape => *final(self) == *old(self) && out is None,
                    Key::Other => *final(self) == *old(self) && out is None,
                },
            },
    {
        match self.search.take() {
            Some(mut buf) => {
                match key {
                    Key::Char(c) => {
                        string_push(&mut buf, c);
                        let out = Some(Event::ActiveSearch(buf.clone()));
                        self.search = Some(buf);
                        out
                    },
                    Key::Backspace => {
                        let _popped_char = string_pop(&mut buf);
                        let out = Some(Event::ActiveSearch(buf.clone()));
                        self.search = Some(buf);
                        out
                    },
                    Key::Ctrl(b) => {
                        if b == 109 {
                            let out = Some(Event::RunSearch(buf.clone(), false));
                            self.prev_search = Some(buf);
                            out
                        } else {
                            self.search = Some(buf);
                            None
                        }
                    },
                    Key::Escape => Some(Event::CancelSearch),
                    Key::Other => {
                        self.search = Some(buf);
                        None
                    },
                }
            },
            None => {
                match key {
                    Key::Char(c) => {
                        if c == '0' {
                            Some(Event::TimerAction(TimerAction::FirstFrame))
                        } else if c == '$' {
                            Some(Event::TimerAction(TimerAction::LastFrame))
                        } else if c == 'l' {
                            Some(Event::TimerAction(TimerAction::NextFrame))
                        } else if c == 'h' {
                            Some(Event::TimerAction(TimerAction::PreviousFrame))
                        } else if c == 'q' {
                            Some(Event::Quit)
                        } else if c == ' ' {
                            Some(Event::TimerAction(TimerAction::Pause))
                        } else if c == '?' {
                            Some(Event::ToggleHelp)
                        } else if c == '+' {
                            Some(Event::TimerAction(TimerAction::SpeedUp))
                        } else if c == '-' {
                            Some(Event::TimerAction(TimerAction::SlowDown))
                        } else if c == '=' {
                            Some(Event::TimerAction(TimerAction::DefaultSpeed))
                        } else if c == '/' {
                            self.search = Some(String::new());
                            Some(Event::ActiveSearch(String::new()))
                        } else if c == 'n' {
                            match &self.prev_search {
                                Some(p) => Some(Event::RunSearch(p.clone(), false)),
                                None => None,
                            }
                        } else if c == 'p' {
                            match &self.prev_search {
                                Some(p) => Some(Event::RunSearch(p.clone(), true)),
                                None => None,
                            }
                        } else {
                            None
                        }
                    },
                    Key::Ctrl(b) => {
                        if b == 105 {
                            Some(Event::ToggleUi)
                        } else {
                            None
                        }
                    },
                    Key::Backspace => None,
                    Key::Escape => None,
                    Key::Other => None,
                }
            },
        }
    }
}

} // verus!
