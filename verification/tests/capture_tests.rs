use gifcap::capture::{
    clamp_region, process_frame, CaptureError, WorkerAction, WorkerCommand, WorkerState,
};
use gifcap::cursor::overlay_cursor;
use gifcap::pixel::PixelBuffer;

fn bgra_frame(w: u32, h: u32, b: u8, g: u8, r: u8, a: u8) -> Vec<u8> {
    let mut data = Vec::new();
    for _ in 0..(w * h) {
        data.extend_from_slice(&[b, g, r, a]);
    }
    data
}

#[test]
fn negative_origin_clamps_to_zero() {
    // Pointer far away so the glyph does not land in the checked area.
    let data = bgra_frame(640, 480, 200, 100, 50, 0);
    let out = process_frame(640, 480, data, -500, -500, -10, 0, 50, 50).unwrap();
    assert_eq!(out.width(), 50);
    assert_eq!(out.height(), 50);
    // Swizzled: red 50, green 100, blue 200, alpha forced opaque.
    assert_eq!(out.get_pixel(0, 0), (50, 100, 200, 255));
}

#[test]
fn clamp_region_pulls_negative_origin_back() {
    let rect = clamp_region(-10, 0, 50, 50, 640, 480).unwrap();
    assert_eq!((rect.x, rect.y, rect.width, rect.height), (0, 0, 50, 50));
}

#[test]
fn clamp_region_shrinks_oversized_request() {
    let rect = clamp_region(600, 400, 100, 100, 640, 480).unwrap();
    assert_eq!((rect.x, rect.y, rect.width, rect.height), (600, 400, 40, 80));
}

#[test]
fn clamp_region_rejects_disjoint_rectangle() {
    assert!(matches!(
        clamp_region(700, 0, 50, 50, 640, 480),
        Err(CaptureError::OutOfBounds)
    ));
    assert!(matches!(
        clamp_region(0, 500, 50, 50, 640, 480),
        Err(CaptureError::OutOfBounds)
    ));
    // Above the frame but within reach of the clamped origin: the origin
    // pulls back to zero and the crop succeeds.
    let rect = clamp_region(0, -60, 50, 50, 640, 480).unwrap();
    assert_eq!((rect.x, rect.y, rect.width, rect.height), (0, 0, 50, 50));
}

#[test]
fn clamp_region_rejects_empty_request() {
    assert!(matches!(
        clamp_region(0, 0, 0, 50, 640, 480),
        Err(CaptureError::OutOfBounds)
    ));
}

#[test]
fn process_frame_rejects_mismatched_buffer() {
    let data = vec![0u8; 10];
    assert!(matches!(
        process_frame(640, 480, data, 0, 0, 0, 0, 50, 50),
        Err(CaptureError::BufferConstructionFailed)
    ));
}

#[test]
fn process_frame_out_of_bounds() {
    let data = bgra_frame(64, 48, 0, 0, 0, 0);
    assert!(matches!(
        process_frame(64, 48, data, -500, -500, 100, 0, 10, 10),
        Err(CaptureError::OutOfBounds)
    ));
}

#[test]
fn process_frame_forces_alpha_everywhere() {
    let data = bgra_frame(32, 32, 1, 2, 3, 0);
    let out = process_frame(32, 32, data, 5, 5, 0, 0, 32, 32).unwrap();
    for y in 0..32 {
        for x in 0..32 {
            assert_eq!(out.get_pixel(x, y).3, 255);
        }
    }
}

#[test]
fn process_frame_stamps_cursor_glyph() {
    let data = bgra_frame(64, 64, 10, 20, 30, 0);
    let out = process_frame(64, 64, data, 10, 10, 0, 0, 64, 64).unwrap();
    // Glyph row 0, column 0 is outline: opaque black.
    assert_eq!(out.get_pixel(10, 10), (0, 0, 0, 255));
    // Glyph row 2, column 1 is fill: opaque white.
    assert_eq!(out.get_pixel(11, 12), (255, 255, 255, 255));
    // Row 0, column 1 is background: the swizzled frame shows through.
    assert_eq!(out.get_pixel(11, 10), (30, 20, 10, 255));
}

#[test]
fn overlay_skips_cells_outside_the_buffer() {
    let mut buf = PixelBuffer::from_raw(4, 4, vec![9u8; 64]).unwrap();
    overlay_cursor(&mut buf, -100, -100);
    for y in 0..4 {
        for x in 0..4 {
            assert_eq!(buf.get_pixel(x, y), (9, 9, 9, 9));
        }
    }
    // Partially covering: only the in-bounds cells change.
    overlay_cursor(&mut buf, 3, 3);
    assert_eq!(buf.get_pixel(3, 3), (0, 0, 0, 255));
    assert_eq!(buf.get_pixel(0, 0), (9, 9, 9, 9));
}

#[test]
fn worker_initializes_lazily_and_stops() {
    let mut w = WorkerState::new();
    let capture = WorkerCommand::Capture {
        x: 0,
        y: 0,
        width: 10,
        height: 10,
    };
    assert_eq!(w.on_command(&capture), WorkerAction::InitThenCapture);
    w.note_init(true);
    assert_eq!(w.on_command(&capture), WorkerAction::CaptureNow);
    assert_eq!(w.on_command(&WorkerCommand::Stop), WorkerAction::ReleaseSession);
    assert_eq!(w.on_command(&capture), WorkerAction::InitThenCapture);
    w.note_init(false);
    assert_eq!(w.on_command(&capture), WorkerAction::InitThenCapture);
}
