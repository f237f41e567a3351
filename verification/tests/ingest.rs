use ttyplay::frames::FrameData;
use ttyplay::ingest::clamp_us_from_ms;
use ttyplay::ingest::ingest_record;
use ttyplay::ingest::IngestState;

#[test]
fn first_record_has_zero_delay_and_sets_origin() {
    let mut ing = IngestState::new(None);
    assert_eq!(ing.next_delay(7_000_000), 0);
    assert_eq!(ing.offset, 7_000_000);
    assert_eq!(ing.next_delay(7_250_000), 250_000);
}

#[test]
fn unclamped_delays_follow_record_times() {
    let mut ing = IngestState::new(None);
    let times = [0u64, 50_000, 5_050_000, 5_150_000];
    let mut delays = Vec::new();
    for t in times {
        delays.push(ing.next_delay(t));
    }
    assert_eq!(delays, vec![0, 50_000, 5_050_000, 5_150_000]);
    assert_eq!(ing.clamped_amount, 0);
}

#[test]
fn clamp_caps_gaps_and_accumulates_the_skipped_time() {
    // Recorded gaps of 0, 50 ms, 5 s and 100 ms with a 200 ms cap: the
    // long gap is capped to 200 ms after the previous offset of 50 ms,
    // and the skipped 4800 ms anchors the later records to the clamped
    // timeline, keeping the final 100 ms gap intact.
    let mut ing = IngestState::new(Some(200_000));
    let times = [0u64, 50_000, 5_050_000, 5_150_000];
    let mut delays = Vec::new();
    for t in times {
        delays.push(ing.next_delay(t));
    }
    assert_eq!(delays, vec![0, 50_000, 250_000, 350_000]);
    assert_eq!(ing.clamped_amount, 4_800_000);
    assert_eq!(delays[3] - delays[2], 100_000);
    assert_eq!(delays[1] - delays[0], 50_000);
}

#[test]
fn accepts_rejects_times_before_the_clamped_base() {
    let mut ing = IngestState::new(Some(0));
    assert!(ing.accepts_time(1_000));
    ing.next_delay(1_000);
    ing.next_delay(5_000_000);
    // Everything past the first gap was clamped away, so the base has
    // moved; a time before it would make the next delay negative.
    assert!(!ing.accepts_time(2_000));
    assert!(ing.accepts_time(5_000_000));
}

#[test]
fn clamp_flag_converts_milliseconds() {
    assert_eq!(clamp_us_from_ms(200), Some(200_000));
    assert_eq!(clamp_us_from_ms(0), Some(0));
    assert_eq!(clamp_us_from_ms(u64::MAX), None);
}

#[test]
fn ingest_record_appends_parsed_screens() {
    let mut ing = IngestState::new(None);
    let mut parser = vt100::Parser::new(24, 80, 0);
    let mut store = FrameData::new();
    let n = ingest_record(&mut ing, &mut parser, &mut store, 0, b"hello");
    assert_eq!(n, 1);
    let n = ingest_record(&mut ing, &mut parser, &mut store, 900_000, b" world");
    assert_eq!(n, 2);
    let f0 = store.get(0).unwrap();
    assert_eq!(f0.delay(), 0);
    let s0 = f0.into_screen().contents();
    assert!(s0.contains("hello"));
    assert!(!s0.contains("world"));
    let f1 = store.get(1).unwrap();
    assert_eq!(f1.delay(), 900_000);
    assert!(f1.into_screen().contents().contains("hello world"));
}
