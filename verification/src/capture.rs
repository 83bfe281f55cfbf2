//! The compute half of the capture engine.
//!
//! A dedicated worker owns the native capture session; callers reach it
//! through an ordered command queue and get exactly one reply per request.
//! The worker's decisions (lazy session construction, tear-down) are the
//! [`WorkerState`] machine, and everything it does to a pulled frame —
//! normalization to canonical red/green/blue/alpha, cursor compositing and
//! clamped cropping — is [`process_frame`].  The queue, the threads and the
//! native calls themselves live outside the library and hand plain values
//! in.

use vstd::prelude::*;
use crate::cursor::{cell_for_pixel, overlay_channel, overlay_cursor};
use crate::pixel::{bgra_to_rgba, lemma_pixel_idx_bound, pixel_idx, swizzled_byte, PixelBuffer};

verus! {

/// Frame rate the native capture session is configured with.
pub const CAPTURE_FPS: u32 = 60;

/// Why a single capture request failed.  The engine stays usable for the
/// next request after any of these.
#[derive(Debug, Clone, PartialEq, Eq)]
pub enum CaptureError {
    /// The native capture session could not be constructed; carries the
    /// native error text.
    InitFailed(String),
    /// Pulling the next native frame failed; carries the native error
    /// text.  Transient: the next request may succeed.
    FrameUnavailable(String),
    /// The requested rectangle does not intersect the captured frame.
    OutOfBounds,
    /// The native frame's bytes did not match its declared dimensions.
    BufferConstructionFailed,
}

/// A rectangle that has been clamped to the captured frame's bounds.
#[derive(Debug, Clone, Copy, PartialEq, Eq, Structural)]
pub struct CropRect {
    pub x: u32,
    pub y: u32,
    pub width: u32,
    pub height: u32,
}

/// A requested origin coordinate, clamped to the frame: negative origins
/// pull back to zero.
pub open spec fn clamped_origin(v: int) -> int {
    if v < 0 {
        0
    } else {
        v
    }
}

/// How much of a requested extent remains visible when measured from the
/// requested (possibly negative) origin: `min(requested, frame - origin)`,
/// clipped to non-negative.  The request is rejected exactly when this is
/// zero.
pub open spec fn clipped_extent(origin: int, requested: int, frame: int) -> int {
    let m = if requested <= frame - origin {
        requested
    } else {
        frame - origin
    };
    if m < 0 {
        0
    } else {
        m
    }
}

/// The extent actually cropped: like [`clipped_extent`], but measured from
/// the clamped origin, so the rectangle always fits inside the frame.
pub open spec fn crop_extent(origin: int, requested: int, frame: int) -> int {
    let m = if requested <= frame - clamped_origin(origin) {
        requested
    } else {
        frame - clamped_origin(origin)
    };
    if m < 0 {
        0
    } else {
        m
    }
}

/// For any requested rectangle no larger than the captured frame, the
/// cropped extent is exactly `min(requested, frame - origin)` clipped to
/// non-negative — the extent measured from the requested origin — in each
/// dimension; together with [`clamp_region`]'s contract, the request
/// fails with `OutOfBounds` exactly when that clipped area is zero.
/// (For a request wider than the frame itself at a negative origin, the
/// crop is additionally capped at the frame's edge.)
pub proof fn lemma_crop_bounds(x: int, y: int, w: int, h: int, fw: int, fh: int)
    requires
        0 <= w <= fw,
        0 <= h <= fh,
    ensures
        crop_extent(x, w, fw) == clipped_extent(x, w, fw),
        crop_extent(y, h, fh) == clipped_extent(y, h, fh),
        clipped_extent(x, w, fw) == 0 || clipped_extent(y, h, fh) == 0 <==> !(clipped_extent(
            x,
            w,
            fw,
        ) > 0 && clipped_extent(y, h, fh) > 0),
{
}

/// Clamps the requested rectangle against the captured frame: the origin
/// pulls back to `(0, 0)` when negative, the extents shrink to what the
/// frame can supply, and the request fails exactly when nothing visible
/// remains in either dimension.
pub fn clamp_region(x: i32, y: i32, width: u32, height: u32, frame_w: u32, frame_h: u32) -> (r:
    Result<CropRect, CaptureError>)
    ensures
        (r is Ok) <==> (clipped_extent(x as int, width as int, frame_w as int) > 0
            && clipped_extent(y as int, height as int, frame_h as int) > 0),
        r matches Ok(rect) ==> rect.x == clamped_origin(x as int) && rect.y == clamped_origin(
            y as int,
        ) && rect.width == crop_extent(x as int, width as int, frame_w as int) && rect.height
            == crop_extent(y as int, height as int, frame_h as int) && rect.x + rect.width
            <= frame_w && rect.y + rect.height <= frame_h,
        r matches Err(e) ==> e == CaptureError::OutOfBounds,
{
    let cx: u32 = if x < 0 {
        0
    } else {
        x as u32
    };
    let cy: u32 = if y < 0 {
        0
    } else {
        y as u32
    };
    let clip_w: i64 = {
        let m = if (width as i64) <= (frame_w as i64) - (x as i64) {
            width as i64
        } else {
            (frame_w as i64) - (x as i64)
        };
        if m < 0 {
            0
        } else {
            m
        }
    };
    let clip_h: i64 = {
        let m = if (height as i64) <= (frame_h as i64) - (y as i64) {
            height as i64
        } else {
            (frame_h as i64) - (y as i64)
        };
        if m < 0 {
            0
        } else {
            m
        }
    };
    if clip_w > 0 && clip_h > 0 {
        let eff_w: i64 = {
            let m = if (width as i64) <= (frame_w as i64) - (cx as i64) {
                width as i64
            } else {
                (frame_w as i64) - (cx as i64)
            };
            if m < 0 {
                0
            } else {
                m
            }
        };
        let eff_h: i64 = {
            let m = if (height as i64) <= (frame_h as i64) - (cy as i64) {
                height as i64
            } else {
                (frame_h as i64) - (cy as i64)
            };
            if m < 0 {
                0
            } else {
                m
            }
        };
        Ok(CropRect { x: cx, y: cy, width: eff_w as u32, height: eff_h as u32 })
    } else {
        Err(CaptureError::OutOfBounds)
    }
}

/// Everything the worker computes on one pulled native frame: the raw
/// blue/green/red/alpha bytes are normalized to canonical red/green/blue/
/// alpha with alpha forced opaque, the pointer glyph is stamped at the
/// pointer position (the monitor origin is taken as `(0, 0)`), and the
/// result is cropped to the requested rectangle, clamped to the frame.
///
/// Fails with `BufferConstructionFailed` exactly when the byte count does
/// not match the declared dimensions, and with `OutOfBounds` exactly when
/// the clamped rectangle has no visible area.
pub fn process_frame(
    frame_w: u32,
    frame_h: u32,
    data: Vec<u8>,
    pointer_x: i32,
    pointer_y: i32,
    x: i32,
    y: i32,
    width: u32,
    height: u32,
) -> (r: Result<PixelBuffer, CaptureError>)
    ensures
        (r matches Err(e) && e == CaptureError::BufferConstructionFailed) <==> data@.len() != 4 * (
        frame_w as int) * (frame_h as int),
        (r matches Err(e) && e == CaptureError::OutOfBounds) <==> (data@.len() == 4 * (
        frame_w as int) * (frame_h as int) && (clipped_extent(x as int, width as int, frame_w as int)
            <= 0 || clipped_extent(y as int, height as int, frame_h as int) <= 0)),
        (r is Ok) <==> (data@.len() == 4 * (frame_w as int) * (frame_h as int) && clipped_extent(
            x as int,
            width as int,
            frame_w as int,
        ) > 0 && clipped_extent(y as int, height as int, frame_h as int) > 0),
        r matches Ok(buf) ==> buf.wf() && buf.spec_width() == crop_extent(
            x as int,
            width as int,
            frame_w as int,
        ) && buf.spec_height() == crop_extent(y as int, height as int, frame_h as int),
        r matches Ok(buf) ==> forall|cx: int, cy: int, c: int|
            0 <= cx < buf.spec_width() && 0 <= cy < buf.spec_height() && 0 <= c < 4
                ==> buf.byte_at(cx, cy, c) == overlay_channel(
                cell_for_pixel(
                    pointer_x as int,
                    pointer_y as int,
                    clamped_origin(x as int) + cx,
                    clamped_origin(y as int) + cy,
                ),
                c,
                swizzled_byte(
                    data@,
                    pixel_idx(
                        frame_w as int,
                        clamped_origin(x as int) + cx,
                        clamped_origin(y as int) + cy,
                        c,
                    ),
                ),
            ),
        r matches Ok(buf) ==> forall|cx: int, cy: int|
            0 <= cx < buf.spec_width() && 0 <= cy < buf.spec_height() ==> buf.byte_at(cx, cy, 3)
                == 255,
{
    proof {
        assert(4 * (frame_w as int) * (frame_h as int) < 0x100000000000000000000000000000000)
            by (nonlinear_arith)
            requires
                frame_w <= 0xffffffffu32,
                frame_h <= 0xffffffffu32,
        ;
    }
    let expected: u128 = 4u128 * (frame_w as u128) * (frame_h as u128);
    if (data.len() as u128) != expected {
        return Err(CaptureError::BufferConstructionFailed);
    }
    let mut raw = data;
    bgra_to_rgba(&mut raw);
    proof {
        assert(raw@.len() % 4 == 0) by {
            let p = (frame_w as int) * (frame_h as int);
            assert(4 * (frame_w as int) * (frame_h as int) == 4 * p) by (nonlinear_arith)
                requires
                    p == (frame_w as int) * (frame_h as int),
            ;
            assert((4 * p) % 4 == 0);
        }
        assert(4 * (raw@.len() as int / 4) == raw@.len());
    }
    let buf_opt = PixelBuffer::from_raw(frame_w, frame_h, raw);
    let mut buf = match buf_opt {
        Some(b) => b,
        None => {
            return Err(CaptureError::BufferConstructionFailed);
        },
    };
    overlay_cursor(&mut buf, pointer_x, pointer_y);
    match clamp_region(x, y, width, height, frame_w, frame_h) {
        Ok(rect) => {
            let out = buf.crop(rect.x, rect.y, rect.width, rect.height);
            proof {
                assert forall|cx: int, cy: int, c: int|
                    0 <= cx < out.spec_width() && 0 <= cy < out.spec_height() && 0 <= c
                        < 4 implies out.byte_at(cx, cy, c) == overlay_channel(
                    cell_for_pixel(
                        pointer_x as int,
                        pointer_y as int,
                        clamped_origin(x as int) + cx,
                        clamped_origin(y as int) + cy,
                    ),
                    c,
                    swizzled_byte(
                        data@,
                        pixel_idx(
                            frame_w as int,
                            clamped_origin(x as int) + cx,
                            clamped_origin(y as int) + cy,
                            c,
                        ),
                    ),
                ) by {
                    lemma_pixel_idx_bound(
                        frame_w as int,
                        frame_h as int,
                        rect.x + cx,
                        rect.y + cy,
                        c,
                    );
                    assert(out.byte_at(cx, cy, c) == buf.byte_at(rect.x + cx, rect.y + cy, c));
                }
                assert forall|cx: int, cy: int|
                    0 <= cx < out.spec_width() && 0 <= cy < out.spec_height() implies out.byte_at(
                    cx,
                    cy,
                    3,
                ) == 255 by {
                    lemma_pixel_idx_bound(
                        frame_w as int,
                        frame_h as int,
                        rect.x + cx,
                        rect.y + cy,
                        3,
                    );
                    let i = pixel_idx(
                        frame_w as int,
                        clamped_origin(x as int) + cx,
                        clamped_origin(y as int) + cy,
                        3,
                    );
                    assert(i % 4 == 3);
                }
            }
            Ok(out)
        },
        Err(e) => Err(e),
    }
}

/// A request or shutdown sent to the capture worker over its command
/// queue.
pub enum WorkerCommand {
    /// Capture the given screen rectangle and reply with the cropped
    /// frame or a failure.
    Capture { x: i32, y: i32, width: u32, height: u32 },
    /// Release the native capture session.
    Stop,
}

/// What the worker must do to honor one command.
#[derive(Debug, Clone, Copy, PartialEq, Eq, Structural)]
pub enum WorkerAction {
    /// Build the native session first (at [`CAPTURE_FPS`], without a baked
    /// in cursor), then pull and process a frame.
    InitThenCapture,
    /// The session exists: pull and process a frame.
    CaptureNow,
    /// Drop the native session.
    ReleaseSession,
}

/// The worker's view of the native capture session: whether one is
/// currently alive.  The session is built lazily on the first capture
/// request and released by `Stop`; a later request builds it anew.
pub struct WorkerState {
    pub session_active: bool,
}

impl WorkerState {
    /// Before the first request: no session.
    pub fn new() -> (s: WorkerState)
        ensures
            !s.session_active,
    {
        WorkerState { session_active: false }
    }

    /// Decides what one dequeued command requires.  `Stop` releases the
    /// session; a capture request initializes it first when it is not
    /// alive.  Exactly one action — and so exactly one reply — comes out
    /// of every command.
    pub fn on_command(&mut self, cmd: &WorkerCommand) -> (a: WorkerAction)
        ensures
            cmd is Stop ==> !final(self).session_active && a == WorkerAction::ReleaseSession,
            cmd is Capture && !old(self).session_active ==> a == WorkerAction::InitThenCapture
                && *final(self) == *old(self),
            cmd is Capture && old(self).session_active ==> a == WorkerAction::CaptureNow
                && *final(self) == *old(self),
    {
        match cmd {
            WorkerCommand::Stop => {
                self.session_active = false;
                WorkerAction::ReleaseSession
            },
            WorkerCommand::Capture { .. } => {
                if self.session_active {
                    WorkerAction::CaptureNow
                } else {
                    WorkerAction::InitThenCapture
                }
            },
        }
    }

    /// Records whether building the native session succeeded; on failure
    /// the request is answered with `InitFailed` and the next request
    /// tries again.
    pub fn note_init(&mut self, success: bool)
        ensures
            final(self).session_active == success,
    {
        self.session_active = success;
    }
}

} // verus!
