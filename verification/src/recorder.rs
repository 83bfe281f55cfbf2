//! The state behind the recording controls: whether a capture loop should
//! be running, and the target frame rate as the user edits it in a text
//! field.  The widgets themselves live outside the library and only send
//! these messages in.

use vstd::prelude::*;
use vstd::string::{StrSliceExecFns, StringExecFns};
use crate::digits::{all_digits, digits_value, parse_u64, check_all_digits};

verus! {

/// Frame rate a fresh recorder starts with.
pub const DEFAULT_FPS: u64 = 15;

/// What the recording controls can tell the recorder.
pub enum Message {
    RecordPressed,
    StopPressed,
    FramePressed,
    EditPressed,
    SavePressed,
    FpsChanged(String),
}

/// The recording controls' state.
pub struct Recorder {
    is_recording: bool,
    fps: u64,
    fps_text: String,
}

impl Recorder {
    /// Whether the capture loop should be running.
    pub closed spec fn spec_is_recording(&self) -> bool {
        self.is_recording
    }

    /// The effective frame rate: the last positive number the user
    /// entered.
    pub closed spec fn spec_fps(&self) -> u64 {
        self.fps
    }

    /// The frame-rate field's current text.
    pub closed spec fn spec_fps_text(&self) -> Seq<char> {
        self.fps_text@
    }

    /// A fresh recorder: not recording, at the default frame rate.
    pub fn new() -> (r: Recorder)
        ensures
            !r.spec_is_recording(),
            r.spec_fps() == DEFAULT_FPS,
            r.spec_fps_text() == "15"@,
    {
        Recorder { is_recording: false, fps: DEFAULT_FPS, fps_text: String::from_str("15") }
    }

    pub fn is_recording(&self) -> (b: bool)
        ensures
            b == self.spec_is_recording(),
    {
        self.is_recording
    }

    pub fn fps(&self) -> (f: u64)
        ensures
            f == self.spec_fps(),
    {
        self.fps
    }

    /// Applies one control message: the record and stop buttons toggle
    /// recording; a frame-rate edit is accepted into the text field only
    /// when it is empty or all digits, and moves the effective rate only
    /// when it reads as a positive representable number.  Every other
    /// message leaves the state alone.
    pub fn update(&mut self, message: Message)
        ensures
            message is RecordPressed ==> final(self).spec_is_recording() && final(self).spec_fps()
                == old(self).spec_fps() && final(self).spec_fps_text() == old(
                self,
            ).spec_fps_text(),
            message is StopPressed ==> !final(self).spec_is_recording() && final(self).spec_fps()
                == old(self).spec_fps() && final(self).spec_fps_text() == old(
                self,
            ).spec_fps_text(),
            (message is FramePressed || message is EditPressed || message is SavePressed)
                ==> *final(self) == *old(self),
            message matches Message::FpsChanged(val) ==> final(self).spec_is_recording() == old(
                self,
            ).spec_is_recording(),
            message matches Message::FpsChanged(val) ==> (if val@.len() == 0 || all_digits(val@) {
                final(self).spec_fps_text() == val@
            } else {
                final(self).spec_fps_text() == old(self).spec_fps_text()
            }),
            message matches Message::FpsChanged(val) ==> (if val@.len() > 0 && all_digits(val@)
                && 0 < digits_value(val@) <= u64::MAX {
                final(self).spec_fps() == digits_value(val@)
            } else {
                final(self).spec_fps() == old(self).spec_fps()
            }),
    {
        match message {
            Message::RecordPressed => {
                self.is_recording = true;
            },
            Message::StopPressed => {
                self.is_recording = false;
            },
            Message::FpsChanged(val) => {
                if val.as_str().unicode_len() == 0 {
                    self.fps_text = val;
                } else if check_all_digits(val.as_str()) {
                    let parsed = parse_u64(val.as_str());
                    self.fps_text = val;
                    if let Some(num) = parsed {
                        if num > 0 {
                            self.fps = num;
                        }
                    }
                }
            },
            _ => {},
        }
    }
}

} // verus!
