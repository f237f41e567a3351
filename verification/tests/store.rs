use ttyplay::frames::Frame;
use ttyplay::frames::FrameData;

fn screen_of(text: &str) -> vt100::Screen {
    let mut parser = vt100::Parser::new(24, 80, 0);
    parser.process(text.as_bytes());
    parser.screen().clone()
}

#[test]
fn empty_store() {
    let store = FrameData::new();
    assert_eq!(store.count(), 0);
    assert!(store.get(0).is_none());
}

#[test]
fn count_grows_by_one_per_append() {
    let mut store = FrameData::new();
    let mut prev = store.count();
    for i in 0..4u64 {
        store.add_frame(Frame::new(screen_of("x"), i * 10));
        let next = store.count();
        assert_eq!(next, prev + 1);
        assert!(next >= prev);
        prev = next;
    }
    assert_eq!(store.count(), 4);
}

#[test]
fn get_returns_appended_frame() {
    let mut store = FrameData::new();
    store.add_frame(Frame::new(screen_of("hello"), 7));
    store.add_frame(Frame::new(screen_of("world"), 9));
    let f0 = store.get(0).unwrap();
    assert_eq!(f0.delay(), 7);
    assert!(f0.into_screen().contents().contains("hello"));
    let f1 = store.get(1).unwrap();
    assert_eq!(f1.delay(), 9);
    assert!(f1.into_screen().contents().contains("world"));
    assert!(store.get(2).is_none());
}

#[test]
fn count_frozen_after_done() {
    let mut store = FrameData::new();
    store.add_frame(Frame::new(screen_of("a"), 0));
    store.add_frame(Frame::new(screen_of("b"), 1));
    let before = store.count();
    store.done_reading();
    assert_eq!(store.count(), before);
    let f = store.get(1).unwrap();
    assert_eq!(f.delay(), 1);
}

#[test]
fn wait_for_frame_scenarios() {
    let mut store = FrameData::new();
    for i in 0..3u64 {
        store.add_frame(Frame::new(screen_of("s"), i));
    }
    store.done_reading();
    assert_eq!(store.wait_for_frame(5), Some(false));
    assert_eq!(store.wait_for_frame(1), Some(true));
    assert_eq!(store.wait_for_frame(2), Some(true));
    assert_eq!(store.wait_for_frame(3), Some(false));
}

#[test]
fn wait_for_frame_pending_while_loading() {
    let mut store = FrameData::new();
    store.add_frame(Frame::new(screen_of("s"), 0));
    assert_eq!(store.wait_for_frame(0), Some(true));
    assert_eq!(store.wait_for_frame(1), None);
    store.add_frame(Frame::new(screen_of("t"), 1));
    assert_eq!(store.wait_for_frame(1), Some(true));
    store.done_reading();
    assert_eq!(store.wait_for_frame(2), Some(false));
}
