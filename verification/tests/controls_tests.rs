use gifcap::digits::{check_all_digits, parse_u64, u64_to_dec};
use gifcap::editor::{Editor, Message as EditorMessage};
use gifcap::pixel::PixelBuffer;
use gifcap::recorder::{Message as RecorderMessage, Recorder};
use gifcap::timeline::RecordingSession;

#[test]
fn parse_reads_decimal_numbers() {
    assert_eq!(parse_u64("0"), Some(0));
    assert_eq!(parse_u64("123"), Some(123));
    assert_eq!(parse_u64("18446744073709551615"), Some(u64::MAX));
}

#[test]
fn parse_rejects_empty_garbage_and_overflow() {
    assert_eq!(parse_u64(""), None);
    assert_eq!(parse_u64("12a"), None);
    assert_eq!(parse_u64("-5"), None);
    assert_eq!(parse_u64(" 12"), None);
    assert_eq!(parse_u64("18446744073709551616"), None);
}

#[test]
fn rendering_numbers_round_trips() {
    assert_eq!(u64_to_dec(0), "0");
    assert_eq!(u64_to_dec(7), "7");
    assert_eq!(u64_to_dec(12345), "12345");
    assert_eq!(u64_to_dec(u64::MAX), "18446744073709551615");
    assert_eq!(parse_u64(&u64_to_dec(987654321)), Some(987654321));
}

#[test]
fn digit_check() {
    assert!(check_all_digits(""));
    assert!(check_all_digits("0123456789"));
    assert!(!check_all_digits("12x"));
    assert!(!check_all_digits("1.5"));
}

#[test]
fn recorder_toggles_and_defaults() {
    let mut r = Recorder::new();
    assert!(!r.is_recording());
    assert_eq!(r.fps(), 15);
    r.update(RecorderMessage::RecordPressed);
    assert!(r.is_recording());
    r.update(RecorderMessage::StopPressed);
    assert!(!r.is_recording());
}

#[test]
fn recorder_accepts_only_positive_numeric_fps() {
    let mut r = Recorder::new();
    r.update(RecorderMessage::FpsChanged("30".to_string()));
    assert_eq!(r.fps(), 30);
    r.update(RecorderMessage::FpsChanged("abc".to_string()));
    assert_eq!(r.fps(), 30);
    r.update(RecorderMessage::FpsChanged("0".to_string()));
    assert_eq!(r.fps(), 30);
    r.update(RecorderMessage::FpsChanged(String::new()));
    assert_eq!(r.fps(), 30);
    r.update(RecorderMessage::FramePressed);
    r.update(RecorderMessage::EditPressed);
    r.update(RecorderMessage::SavePressed);
    assert_eq!(r.fps(), 30);
    assert!(!r.is_recording());
}

fn gray_frame(w: u32, h: u32) -> PixelBuffer {
    PixelBuffer::from_raw(w, h, vec![128u8; (w * h * 4) as usize]).unwrap()
}

fn three_frame_session() -> RecordingSession {
    let mut s = RecordingSession::new();
    s.add_frame(gray_frame(4, 4), 0);
    s.add_frame(gray_frame(4, 4), 40);
    s.add_frame(gray_frame(4, 4), 90);
    s
}

#[test]
fn editor_applies_a_typed_delay() {
    let mut e = Editor::new(three_frame_session());
    e.update(EditorMessage::FrameSelected(0));
    e.update(EditorMessage::DelayInputChanged("60".to_string()));
    e.update(EditorMessage::SetDelay);
    assert_eq!(e.session().frames()[1].timestamp_ms, 60);
    assert_eq!(e.session().frames()[2].timestamp_ms, 110);
}

#[test]
fn editor_ignores_non_numeric_delay_input() {
    let mut e = Editor::new(three_frame_session());
    e.update(EditorMessage::FrameSelected(0));
    e.update(EditorMessage::DelayInputChanged("6x".to_string()));
    e.update(EditorMessage::SetDelay);
    // The field still holds the selected frame's delay, 40 ms, so the
    // timeline is unchanged.
    assert_eq!(e.session().frames()[1].timestamp_ms, 40);
    assert_eq!(e.session().frames()[2].timestamp_ms, 90);
}

#[test]
fn editor_delete_moves_selection_to_last() {
    let mut e = Editor::new(three_frame_session());
    e.update(EditorMessage::FrameSelected(2));
    e.update(EditorMessage::DeleteFrame);
    assert_eq!(e.session().frame_count(), 2);
    // The selection fell back to the new last frame; deleting again works.
    e.update(EditorMessage::DeleteFrame);
    assert_eq!(e.session().frame_count(), 1);
    e.update(EditorMessage::DeleteFrame);
    assert_eq!(e.session().frame_count(), 0);
    // Nothing selected anymore: a further delete changes nothing.
    e.update(EditorMessage::DeleteFrame);
    assert_eq!(e.session().frame_count(), 0);
}

#[test]
fn editor_delete_without_selection_is_noop() {
    let mut e = Editor::new(three_frame_session());
    e.update(EditorMessage::DeleteFrame);
    assert_eq!(e.session().frame_count(), 3);
}

#[test]
fn editor_back_and_save_change_nothing() {
    let mut e = Editor::new(three_frame_session());
    e.update(EditorMessage::Back);
    e.update(EditorMessage::Save);
    assert_eq!(e.session().frame_count(), 3);
    let s = e.into_session();
    assert_eq!(s.frame_count(), 3);
}
