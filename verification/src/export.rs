//! Serializing a timeline to an animated GIF.
//!
//! The verified part assembles the export records — every frame of the
//! timeline in order, each with the display delay derived from the gap to
//! its successor — and the actual compression is one call into the `image`
//! crate behind a trusted wrapper.  File output stays outside the library:
//! the caller receives the encoded bytes.

use vstd::prelude::*;
use crate::timeline::{delay_at, RecordingSession};

verus! {

/// Encoder speed handed to the GIF encoder: the throughput-favoring end
/// of its 1 (best quality) to 30 (fastest) range, since saving a long
/// recording must not stall the user.
pub const GIF_ENCODE_SPEED: i32 = 30;

/// Largest width or height the GIF format can hold.
pub const MAX_GIF_EXTENT: u32 = 0xffff;

/// Why an export failed.
#[derive(Debug, Clone, PartialEq, Eq)]
pub enum ExportError {
    /// The encoder rejected the frames; carries the encoder's error text.
    EncodeFailed(String),
}

/// One frame as handed to the encoder: raw canonical red/green/blue/alpha
/// bytes, dimensions, and the display delay in milliseconds.
pub struct ExportFrame {
    pub data: Vec<u8>,
    pub width: u32,
    pub height: u32,
    pub delay_ms: u64,
}

/// The bytes that the GIF encoder produces for the given frames (each a
/// tuple of pixel bytes, width, height and delay in milliseconds) at the
/// given speed setting.
pub uninterp spec fn gif_encoding(frames: Seq<(Seq<u8>, u32, u32, u64)>, speed: i32) -> Seq<u8>;

/// Relies on `image::codecs::gif::GifEncoder` (`new_with_speed`,
/// `set_repeat`, `encode_frame`): the frames are compressed in order into
/// one infinitely-looping GIF stream written to the byte sink, and the
/// output depends only on the frames and the speed setting.  The encoder
/// reports an error exactly when some frame dimension exceeds the format's
/// 16-bit extent; nothing else can fail when the sink is a plain vector.
#[verifier::external_body]
fn encode_gif_frames(frames: &Vec<ExportFrame>, speed: i32) -> (r: Result<Vec<u8>, String>)
    requires
        1 <= speed <= 30,
        forall|i: int|
            0 <= i < frames@.len() ==> (#[trigger] frames@[i]).data@.len() == 4 * (
            frames@[i].width as int) * (frames@[i].height as int),
    ensures
        (r is Ok) <==> (forall|i: int|
            0 <= i < frames@.len() ==> (#[trigger] frames@[i]).width <= MAX_GIF_EXTENT
                && frames@[i].height <= MAX_GIF_EXTENT),
        r matches Ok(b) ==> b@ == gif_encoding(
            frames@.map_values(|f: ExportFrame| (f.data@, f.width, f.height, f.delay_ms)),
            speed,
        ),
{
    let mut bytes: Vec<u8> = Vec::new();
    let mut enc = image::codecs::gif::GifEncoder::new_with_speed(&mut bytes, speed);
    let mut res = enc.set_repeat(image::codecs::gif::Repeat::Infinite);
    for f in frames.iter() {
        if res.is_err() { break; }
        let img = image::RgbaImage::from_raw(f.width, f.height, f.data.clone()).unwrap();
        let delay = image::Delay::from_saturating_duration(std::time::Duration::from_millis(f.delay_ms));
        res = enc.encode_frame(image::Frame::from_parts(img, 0, 0, delay));
    }
    drop(enc);
    match res { Ok(()) => Ok(bytes), Err(e) => Err(format!("{}", e)) }
}

impl RecordingSession {
    /// The export records: one per frame of the timeline, in order, each
    /// carrying that frame's pixels and its display delay (the gap to the
    /// next frame, or the fixed fallback for the last frame).
    pub fn export_frames(&self) -> (plan: Vec<ExportFrame>)
        requires
            self.wf(),
        ensures
            plan@.len() == self.spec_frames().len(),
            forall|i: int|
                0 <= i < plan@.len() ==> (#[trigger] plan@[i]).data@
                    == self.spec_frames()[i].image.bytes() && plan@[i].width
                    == self.spec_frames()[i].image.spec_width() && plan@[i].height
                    == self.spec_frames()[i].image.spec_height() && plan@[i].delay_ms == delay_at(
                    self.timestamps(),
                    i,
                ),
    {
        let n = self.frame_count();
        let mut plan: Vec<ExportFrame> = Vec::new();
        let mut i: usize = 0;
        while i < n
            invariant
                self.wf(),
                n == self.spec_frames().len(),
                0 <= i <= n,
                plan@.len() == i,
                forall|j: int|
                    0 <= j < i ==> (#[trigger] plan@[j]).data@
                        == self.spec_frames()[j].image.bytes() && plan@[j].width
                        == self.spec_frames()[j].image.spec_width() && plan@[j].height
                        == self.spec_frames()[j].image.spec_height() && plan@[j].delay_ms
                        == delay_at(self.timestamps(), j),
            decreases n - i,
        {
            let fr = &self.frames()[i];
            let delay_ms = self.get_frame_delay(i);
            let record = ExportFrame {
                data: fr.image.to_bytes(),
                width: fr.image.width(),
                height: fr.image.height(),
                delay_ms,
            };
            plan.push(record);
            i = i + 1;
        }
        plan
    }

    /// Encodes the timeline as an infinitely-looping GIF and returns the
    /// file's bytes.  Succeeds exactly when every frame fits the format's
    /// extent limit; the frame count and per-frame delays of the encoded
    /// stream are the timeline's.
    pub fn export_gif(&self) -> (r: Result<Vec<u8>, ExportError>)
        requires
            self.wf(),
        ensures
            (r is Ok) <==> (forall|i: int|
                0 <= i < self.spec_frames().len() ==> (
                #[trigger] self.spec_frames()[i]).image.spec_width() <= MAX_GIF_EXTENT
                    && self.spec_frames()[i].image.spec_height() <= MAX_GIF_EXTENT),
            r matches Ok(b) ==> b@ == gif_encoding(self.export_model(), GIF_ENCODE_SPEED),
            r matches Err(e) ==> e is EncodeFailed,
    {
        let plan = self.export_frames();
        proof {
            assert(plan@.map_values(|f: ExportFrame| (f.data@, f.width, f.height, f.delay_ms))
                =~= self.export_model());
            if forall|i: int|
                0 <= i < plan@.len() ==> (#[trigger] plan@[i]).width <= MAX_GIF_EXTENT
                    && plan@[i].height <= MAX_GIF_EXTENT {
                assert forall|i: int|
                    0 <= i < self.spec_frames().len() implies (
                #[trigger] self.spec_frames()[i]).image.spec_width() <= MAX_GIF_EXTENT
                    && self.spec_frames()[i].image.spec_height() <= MAX_GIF_EXTENT by {
                    assert(plan@[i].width <= MAX_GIF_EXTENT && plan@[i].height <= MAX_GIF_EXTENT);
                }
            }
            if forall|i: int|
                0 <= i < self.spec_frames().len() ==> (
                #[trigger] self.spec_frames()[i]).image.spec_width() <= MAX_GIF_EXTENT
                    && self.spec_frames()[i].image.spec_height() <= MAX_GIF_EXTENT {
                assert forall|i: int|
                    0 <= i < plan@.len() implies (#[trigger] plan@[i]).width <= MAX_GIF_EXTENT
                    && plan@[i].height <= MAX_GIF_EXTENT by {
                    assert(self.spec_frames()[i].image.spec_width() <= MAX_GIF_EXTENT
                        && self.spec_frames()[i].image.spec_height() <= MAX_GIF_EXTENT);
                }
            }
        }
        match encode_gif_frames(&plan, GIF_ENCODE_SPEED) {
            Ok(b) => Ok(b),
            Err(e) => Err(ExportError::EncodeFailed(e)),
        }
    }

    /// What reaches the encoder: each frame's bytes, dimensions and
    /// display delay, in timeline order.
    pub open spec fn export_model(&self) -> Seq<(Seq<u8>, u32, u32, u64)> {
        Seq::new(
            self.spec_frames().len(),
            |i: int|
                (
                    self.spec_frames()[i].image.bytes(),
                    self.spec_frames()[i].image.spec_width(),
                    self.spec_frames()[i].image.spec_height(),
                    delay_at(self.timestamps(), i),
                ),
        )
    }
}

} // verus!
