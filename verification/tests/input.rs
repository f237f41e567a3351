use ttyplay::event::Event;
use ttyplay::event::TimerAction;
use ttyplay::input::InputState;
use ttyplay::input::Key;

#[test]
fn normal_mode_keys_map_to_events() {
    let mut st = InputState::new();
    match st.handle_key(Key::Char('0')) {
        Some(Event::TimerAction(TimerAction::FirstFrame)) => {}
        _ => panic!("expected a first-frame action"),
    }
    match st.handle_key(Key::Char('$')) {
        Some(Event::TimerAction(TimerAction::LastFrame)) => {}
        _ => panic!("expected a last-frame action"),
    }
    match st.handle_key(Key::Char('l')) {
        Some(Event::TimerAction(TimerAction::NextFrame)) => {}
        _ => panic!("expected a next-frame action"),
    }
    match st.handle_key(Key::Char('h')) {
        Some(Event::TimerAction(TimerAction::PreviousFrame)) => {}
        _ => panic!("expected a previous-frame action"),
    }
    match st.handle_key(Key::Char(' ')) {
        Some(Event::TimerAction(TimerAction::Pause)) => {}
        _ => panic!("expected a pause action"),
    }
    match st.handle_key(Key::Char('+')) {
        Some(Event::TimerAction(TimerAction::SpeedUp)) => {}
        _ => panic!("expected a speed-up action"),
    }
    match st.handle_key(Key::Char('-')) {
        Some(Event::TimerAction(TimerAction::SlowDown)) => {}
        _ => panic!("expected a slow-down action"),
    }
    match st.handle_key(Key::Char('=')) {
        Some(Event::TimerAction(TimerAction::DefaultSpeed)) => {}
        _ => panic!("expected a default-speed action"),
    }
    match st.handle_key(Key::Ctrl(b'i')) {
        Some(Event::ToggleUi) => {}
        _ => panic!("expected a UI toggle"),
    }
    match st.handle_key(Key::Char('?')) {
        Some(Event::ToggleHelp) => {}
        _ => panic!("expected a help toggle"),
    }
    match st.handle_key(Key::Char('q')) {
        Some(Event::Quit) => {}
        _ => panic!("expected quit"),
    }
    assert!(st.handle_key(Key::Char('x')).is_none());
    assert!(st.handle_key(Key::Escape).is_none());
}

#[test]
fn next_match_without_previous_search_is_ignored() {
    let mut st = InputState::new();
    assert!(st.handle_key(Key::Char('n')).is_none());
    assert!(st.handle_key(Key::Char('p')).is_none());
}

#[test]
fn search_entry_builds_query_and_runs_it() {
    let mut st = InputState::new();
    match st.handle_key(Key::Char('/')) {
        Some(Event::ActiveSearch(s)) => assert_eq!(s, ""),
        _ => panic!("expected an empty search prompt"),
    }
    match st.handle_key(Key::Char('a')) {
        Some(Event::ActiveSearch(s)) => assert_eq!(s, "a"),
        _ => panic!("expected the growing buffer"),
    }
    match st.handle_key(Key::Char('b')) {
        Some(Event::ActiveSearch(s)) => assert_eq!(s, "ab"),
        _ => panic!("expected the growing buffer"),
    }
    match st.handle_key(Key::Backspace) {
        Some(Event::ActiveSearch(s)) => assert_eq!(s, "a"),
        _ => panic!("expected the shrunken buffer"),
    }
    match st.handle_key(Key::Char('l')) {
        Some(Event::ActiveSearch(s)) => assert_eq!(s, "al"),
        _ => panic!("a frame key must append while searching"),
    }
    match st.handle_key(Key::Ctrl(b'm')) {
        Some(Event::RunSearch(q, back)) => {
            assert_eq!(q, "al");
            assert!(!back);
        }
        _ => panic!("expected the search to run"),
    }
    // Back in normal mode, `n` and `p` reuse the stored query.
    match st.handle_key(Key::Char('n')) {
        Some(Event::RunSearch(q, back)) => {
            assert_eq!(q, "al");
            assert!(!back);
        }
        _ => panic!("expected a forward repeat"),
    }
    match st.handle_key(Key::Char('p')) {
        Some(Event::RunSearch(q, back)) => {
            assert_eq!(q, "al");
            assert!(back);
        }
        _ => panic!("expected a backward repeat"),
    }
}

#[test]
fn escape_cancels_search_entry() {
    let mut st = InputState::new();
    st.handle_key(Key::Char('/'));
    st.handle_key(Key::Char('z'));
    match st.handle_key(Key::Escape) {
        Some(Event::CancelSearch) => {}
        _ => panic!("expected the cancel event"),
    }
    // The cancelled query was not stored.
    assert!(st.handle_key(Key::Char('n')).is_none());
}

#[test]
fn backspace_on_empty_buffer_keeps_it_empty() {
    let mut st = InputState::new();
    st.handle_key(Key::Char('/'));
    match st.handle_key(Key::Backspace) {
        Some(Event::ActiveSearch(s)) => assert_eq!(s, ""),
        _ => panic!("expected the empty buffer again"),
    }
}

#[test]
fn other_keys_ignored_in_search_entry() {
    let mut st = InputState::new();
    st.handle_key(Key::Char('/'));
    assert!(st.handle_key(Key::Other).is_none());
    assert!(st.handle_key(Key::Ctrl(b'x')).is_none());
    match st.handle_key(Key::Char('!')) {
        Some(Event::ActiveSearch(s)) => assert_eq!(s, "!"),
        _ => panic!("expected the buffer to keep growing"),
    }
}
