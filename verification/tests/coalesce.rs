use ttyplay::event::Event;
use ttyplay::event::Pending;
use ttyplay::event::TimerAction;

fn screen_of(text: &str) -> vt100::Screen {
    let mut parser = vt100::Parser::new(24, 80, 0);
    parser.process(text.as_bytes());
    parser.screen().clone()
}

#[test]
fn empty_coalescer_has_nothing() {
    let mut pending = Pending::new();
    assert!(!pending.has_event());
    assert!(pending.get_event().is_none());
}

#[test]
fn cancelled_toggles_then_latest_pause_then_transition() {
    let mut pending = Pending::new();
    pending.event(Event::ToggleUi);
    pending.event(Event::ToggleUi);
    pending.event(Event::Paused(true));
    pending.event(Event::FrameTransition(3, screen_of("s")));
    pending.event(Event::Paused(false));
    // The two UI toggles cancel; the paused slot keeps only the last
    // value and drains before the frame transition.
    match pending.get_event() {
        Some(Event::Paused(p)) => assert!(!p),
        _ => panic!("expected the paused event first"),
    }
    match pending.get_event() {
        Some(Event::FrameTransition(i, s)) => {
            assert_eq!(i, 3);
            assert!(s.contents().contains("s"));
        }
        _ => panic!("expected the frame transition next"),
    }
    assert!(pending.get_event().is_none());
}

#[test]
fn latest_wins_slots_overwrite() {
    let mut pending = Pending::new();
    pending.event(Event::FrameTransition(1, screen_of("a")));
    pending.event(Event::FrameTransition(2, screen_of("b")));
    pending.event(Event::Speed(8));
    pending.event(Event::Speed(4));
    match pending.get_event() {
        Some(Event::Speed(r)) => assert_eq!(r, 4),
        _ => panic!("expected the speed event"),
    }
    match pending.get_event() {
        Some(Event::FrameTransition(i, _)) => assert_eq!(i, 2),
        _ => panic!("expected the frame transition"),
    }
}

#[test]
fn timer_actions_stay_fifo_and_precede_view_updates() {
    let mut pending = Pending::new();
    pending.event(Event::Paused(true));
    pending.event(Event::TimerAction(TimerAction::SpeedUp));
    pending.event(Event::TimerAction(TimerAction::Pause));
    match pending.get_event() {
        Some(Event::TimerAction(a)) => assert_eq!(a, TimerAction::SpeedUp),
        _ => panic!("expected the first queued action"),
    }
    match pending.get_event() {
        Some(Event::TimerAction(a)) => assert_eq!(a, TimerAction::Pause),
        _ => panic!("expected the second queued action"),
    }
    match pending.get_event() {
        Some(Event::Paused(p)) => assert!(p),
        _ => panic!("expected the paused event last"),
    }
}

#[test]
fn error_preempts_everything() {
    let mut pending = Pending::new();
    pending.event(Event::Quit);
    pending.event(Event::TimerAction(TimerAction::NextFrame));
    pending.event(Event::Error(String::from("boom")));
    match pending.get_event() {
        Some(Event::Error(m)) => assert_eq!(m, "boom"),
        _ => panic!("expected the error first"),
    }
    match pending.get_event() {
        Some(Event::Quit) => {}
        _ => panic!("expected quit before the queued action"),
    }
}

#[test]
fn search_events_overwrite_each_other() {
    let mut pending = Pending::new();
    pending.event(Event::ActiveSearch(String::from("al")));
    pending.event(Event::RunSearch(String::from("alpha"), false));
    match pending.get_event() {
        Some(Event::RunSearch(q, back)) => {
            assert_eq!(q, "alpha");
            assert!(!back);
        }
        _ => panic!("expected only the run-search event"),
    }
    assert!(pending.get_event().is_none());

    pending.event(Event::RunSearch(String::from("alpha"), true));
    pending.event(Event::CancelSearch);
    match pending.get_event() {
        Some(Event::CancelSearch) => {}
        _ => panic!("expected only the cancel event"),
    }
    assert!(pending.get_event().is_none());
}

#[test]
fn frame_loaded_keeps_latest_count_and_done_marker() {
    let mut pending = Pending::new();
    pending.event(Event::FrameLoaded(Some(1)));
    pending.event(Event::FrameLoaded(Some(5)));
    pending.event(Event::FrameLoaded(None));
    match pending.get_event() {
        Some(Event::FrameLoaded(Some(n))) => assert_eq!(n, 5),
        _ => panic!("expected the latest count"),
    }
    match pending.get_event() {
        Some(Event::FrameLoaded(None)) => {}
        _ => panic!("expected the done marker"),
    }
    assert!(pending.get_event().is_none());
}

#[test]
fn single_toggle_is_delivered_once() {
    let mut pending = Pending::new();
    pending.event(Event::ToggleHelp);
    assert!(pending.has_event());
    match pending.get_event() {
        Some(Event::ToggleHelp) => {}
        _ => panic!("expected the help toggle"),
    }
    assert!(!pending.has_event());
}
