//! The state behind the timeline editor: a recording session under edit,
//! the currently selected frame, and the delay field's text.  The frame
//! strip and buttons live outside the library and only send these
//! messages in.

use vstd::prelude::*;
use vstd::string::{StrSliceExecFns, StringExecFns};
use crate::digits::{all_digits, check_all_digits, dec_digits, digits_value, parse_u64, u64_to_dec};
use crate::timeline::{delay_at, shifted_ts, RecordingSession};

verus! {

/// What the editor surface can ask for.
pub enum Message {
    Back,
    Save,
    DeleteFrame,
    FrameSelected(usize),
    DelayInputChanged(String),
    SetDelay,
}

/// A recording session under edit.
pub struct Editor {
    session: RecordingSession,
    selected_frame: Option<usize>,
    delay_input: String,
}

impl Editor {
    /// The session being edited.
    pub closed spec fn spec_session(&self) -> RecordingSession {
        self.session
    }

    /// The selected frame, if any.
    pub closed spec fn spec_selected(&self) -> Option<usize> {
        self.selected_frame
    }

    /// The delay field's current text.
    pub closed spec fn spec_delay_input(&self) -> Seq<char> {
        self.delay_input@
    }

    /// The session is well formed and any selection points at an existing
    /// frame.
    pub open spec fn wf(&self) -> bool {
        self.spec_session().wf() && (self.spec_selected() matches Some(i) ==> (
        i as int) < self.spec_session().spec_frames().len())
    }

    /// Starts editing a session: nothing selected, the delay field primed
    /// with the fallback delay.
    pub fn new(session: RecordingSession) -> (e: Editor)
        requires
            session.wf(),
        ensures
            e.wf(),
            e.spec_session() == session,
            e.spec_selected() is None,
            e.spec_delay_input() == "100"@,
    {
        Editor {
            session,
            selected_frame: None,
            delay_input: String::from_str("100"),
        }
    }

    /// Applies one editor message.
    ///
    /// Selecting a frame records the selection and shows that frame's
    /// delay in the delay field.  Deleting removes the selected frame and
    /// moves the selection to the nearest remaining frame (or clears it).
    /// A delay edit is accepted into the field only when it is all
    /// digits; applying it re-times the selected frame when it reads as a
    /// representable number.  `Back` and `Save` belong to the surrounding
    /// shell and change nothing here.
    pub fn update(&mut self, message: Message)
        requires
            old(self).wf(),
            message matches Message::FrameSelected(i) ==> (i as int) < old(
                self,
            ).spec_session().spec_frames().len(),
        ensures
            final(self).wf(),
            (message is Back || message is Save) ==> *final(self) == *old(self),
            message matches Message::FrameSelected(i) ==> final(self).spec_session() == old(
                self,
            ).spec_session() && final(self).spec_selected() == Some(i) && final(self).spec_delay_input() == dec_digits(
                delay_at(old(self).spec_session().timestamps(), i as int) as int,
            ),
            message matches Message::DelayInputChanged(val) ==> final(self).spec_session() == old(
                self,
            ).spec_session() && final(self).spec_selected() == old(self).spec_selected() && (
            if all_digits(val@) {
                final(self).spec_delay_input() == val@
            } else {
                final(self).spec_delay_input() == old(self).spec_delay_input()
            }),
            message is DeleteFrame && old(self).spec_selected() is None ==> *final(self) == *old(
                self,
            ),
            message is DeleteFrame && old(self).spec_selected() is Some ==> ({
                let i = old(self).spec_selected()->Some_0;
                let n = old(self).spec_session().spec_frames().len();
                final(self).spec_session().spec_frames() == old(
                    self,
                ).spec_session().spec_frames().remove(i as int) && final(self).spec_delay_input()
                    == old(self).spec_delay_input() && (if n == 1 {
                    final(self).spec_selected() is None
                } else if i as int >= n - 1 {
                    final(self).spec_selected() == Some((n - 2) as usize)
                } else {
                    final(self).spec_selected() == Some(i)
                })
            }),
            message is SetDelay && old(self).spec_selected() is None ==> *final(self) == *old(self),
            message is SetDelay && old(self).spec_selected() is Some ==> ({
                let i = old(self).spec_selected()->Some_0;
                let txt = old(self).spec_delay_input();
                let s = old(self).spec_session();
                final(self).spec_selected() == old(self).spec_selected() && final(self).spec_delay_input() == txt && (if txt.len() > 0 && all_digits(txt)
                    && digits_value(txt) <= u64::MAX {
                    final(self).spec_session().spec_frames().len() == s.spec_frames().len() && (
                    forall|j: int|
                        0 <= j < s.spec_frames().len() ==> final(self).spec_session().spec_frames()[j].image == s.spec_frames()[j].image) && (
                    if i as int + 1 < s.spec_frames().len() {
                        final(self).spec_session().timestamps() == shifted_ts(
                            s.timestamps(),
                            i as int,
                            digits_value(txt) as u64,
                        )
                    } else {
                        final(self).spec_session().spec_frames() == s.spec_frames()
                    })
                } else {
                    final(self).spec_session() == s
                })
            }),
    {
        match message {
            Message::FrameSelected(index) => {
                self.selected_frame = Some(index);
                let ms = self.session.get_frame_delay(index);
                self.delay_input = u64_to_dec(ms);
            },
            Message::DeleteFrame => {
                if let Some(index) = self.selected_frame {
                    self.session.remove_frame(index);
                    let count = self.session.frame_count();
                    if count == 0 {
                        self.selected_frame = None;
                    } else if index >= count {
                        self.selected_frame = Some(count - 1);
                    }
                }
            },
            Message::DelayInputChanged(val) => {
                if check_all_digits(val.as_str()) {
                    self.delay_input = val;
                }
            },
            Message::SetDelay => {
                if let Some(index) = self.selected_frame {
                    if let Some(ms) = parse_u64(self.delay_input.as_str()) {
                        self.session.set_delay(index, ms);
                    }
                }
            },
            _ => {},
        }
    }

    /// Read-only access to the session under edit.
    pub fn session(&self) -> (r: &RecordingSession)
        ensures
            *r == self.spec_session(),
    {
        &self.session
    }

    /// Gives the session back, ending the edit.
    pub fn into_session(self) -> (s: RecordingSession)
        ensures
            s == self.spec_session(),
    {
        self.session
    }
}

} // verus!
