use gifcap::pixel::PixelBuffer;
use gifcap::timeline::RecordingSession;

fn red_frame(w: u32, h: u32) -> PixelBuffer {
    let mut data = Vec::new();
    for _ in 0..(w * h) {
        data.push(255u8);
        data.push(0u8);
        data.push(0u8);
        data.push(255u8);
    }
    PixelBuffer::from_raw(w, h, data).unwrap()
}

fn three_red_frames() -> RecordingSession {
    let mut s = RecordingSession::new();
    s.add_frame(red_frame(100, 100), 0);
    s.add_frame(red_frame(100, 100), 40);
    s.add_frame(red_frame(100, 100), 90);
    s
}

#[test]
fn delays_follow_capture_gaps_with_fallback() {
    let s = three_red_frames();
    assert_eq!(s.frame_count(), 3);
    assert_eq!(s.get_frame_delay(0), 40);
    assert_eq!(s.get_frame_delay(1), 50);
    assert_eq!(s.get_frame_delay(2), 100);
}

#[test]
fn set_delay_shifts_every_later_frame() {
    let mut s = three_red_frames();
    s.set_delay(0, 60);
    assert_eq!(s.frames()[0].timestamp_ms, 0);
    assert_eq!(s.frames()[1].timestamp_ms, 60);
    assert_eq!(s.frames()[2].timestamp_ms, 110);
    assert_eq!(s.get_frame_delay(1), 50);
}

#[test]
fn set_delay_round_trip() {
    let mut s = three_red_frames();
    s.set_delay(1, 25);
    assert_eq!(s.get_frame_delay(1), 25);
    s.set_delay(0, 7);
    assert_eq!(s.get_frame_delay(0), 7);
}

#[test]
fn set_delay_shrink_clamps_at_predecessor() {
    let mut s = RecordingSession::new();
    s.add_frame(red_frame(2, 2), 0);
    s.add_frame(red_frame(2, 2), 40);
    s.add_frame(red_frame(2, 2), 45);
    s.set_delay(0, 0);
    assert_eq!(s.frames()[1].timestamp_ms, 0);
    assert_eq!(s.frames()[2].timestamp_ms, 5);
}

#[test]
fn set_delay_on_last_or_out_of_range_is_noop() {
    let mut s = three_red_frames();
    s.set_delay(2, 10);
    s.set_delay(17, 10);
    assert_eq!(s.frames()[0].timestamp_ms, 0);
    assert_eq!(s.frames()[1].timestamp_ms, 40);
    assert_eq!(s.frames()[2].timestamp_ms, 90);
}

#[test]
fn timestamps_stay_monotone_through_edits() {
    let mut s = three_red_frames();
    s.set_delay(0, 3);
    s.remove_frame(1);
    s.add_frame(red_frame(100, 100), 500);
    s.set_delay(1, 1);
    let frames = s.frames();
    for i in 1..frames.len() {
        assert!(frames[i - 1].timestamp_ms <= frames[i].timestamp_ms);
    }
}

#[test]
fn remove_reindexes_later_frames() {
    let mut s = three_red_frames();
    let was_second = s.frames()[2].timestamp_ms;
    s.remove_frame(1);
    assert_eq!(s.frame_count(), 2);
    assert_eq!(s.frames()[1].timestamp_ms, was_second);
}

#[test]
fn remove_out_of_range_is_noop() {
    let mut s = three_red_frames();
    s.remove_frame(3);
    s.remove_frame(1000);
    assert_eq!(s.frame_count(), 3);
}

#[test]
fn cloned_timelines_diverge_independently() {
    let live = three_red_frames();
    let mut editing = live.clone();
    editing.set_delay(0, 60);
    editing.remove_frame(2);
    assert_eq!(editing.frame_count(), 2);
    assert_eq!(editing.frames()[1].timestamp_ms, 60);
    assert_eq!(live.frame_count(), 3);
    assert_eq!(live.frames()[1].timestamp_ms, 40);
}

#[test]
fn clear_empties_the_timeline() {
    let mut s = three_red_frames();
    s.clear();
    assert_eq!(s.frame_count(), 0);
    assert_eq!(s.get_frame_delay(0), 100);
}
