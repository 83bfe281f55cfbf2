//! The frame timeline of one recording: an ordered sequence of captured
//! frames, each carrying a timestamp in milliseconds relative to the start
//! of the session.  Timestamps never decrease along the sequence, and they
//! stay that way through every edit.

use vstd::prelude::*;
use crate::pixel::PixelBuffer;

verus! {

/// Display delay attributed to the last frame of a timeline, for which no
/// successor exists to derive a gap from.
pub const DEFAULT_LAST_FRAME_DELAY_MS: u64 = 100;

/// One captured frame and the moment it was captured, in milliseconds
/// since the session started.
#[derive(Clone)]
pub struct Frame {
    pub image: PixelBuffer,
    pub timestamp_ms: u64,
}

/// Timestamps never decrease along the sequence.
pub open spec fn monotone(ts: Seq<u64>) -> bool {
    forall|i: int, j: int| 0 <= i <= j < ts.len() ==> ts[i] <= ts[j]
}

/// The display delay of frame `index`: the gap to the next frame's
/// timestamp, or the fixed fallback when no next frame exists.
pub open spec fn delay_at(ts: Seq<u64>, index: int) -> u64 {
    if 0 <= index && index + 1 < ts.len() {
        (ts[index + 1] - ts[index]) as u64
    } else {
        DEFAULT_LAST_FRAME_DELAY_MS
    }
}

/// The timestamps after the delay of frame `index` is set to `delay_ms`:
/// frame `index + 1` moves to `ts[index] + delay_ms` and every later frame
/// shifts by the same amount, except that no frame may move before frame
/// `index` (saturating at that bound, and at the integer limits).
pub open spec fn shifted_ts(ts: Seq<u64>, index: int, delay_ms: u64) -> Seq<u64> {
    let base = ts[index];
    let target = base.saturating_add(delay_ms);
    let old_next = ts[index + 1];
    Seq::new(
        ts.len(),
        |j: int|
            if j <= index {
                ts[j]
            } else if target >= old_next {
                ts[j].saturating_add((target - old_next) as u64)
            } else {
                let lowered = ts[j].saturating_sub((old_next - target) as u64);
                if lowered < base {
                    base
                } else {
                    lowered
                }
            },
    )
}

/// Re-timing one frame's delay keeps the timestamps non-decreasing.
pub proof fn lemma_shifted_monotone(ts: Seq<u64>, index: int, delay_ms: u64)
    requires
        monotone(ts),
        0 <= index,
        index + 1 < ts.len(),
    ensures
        monotone(shifted_ts(ts, index, delay_ms)),
{
    let s = shifted_ts(ts, index, delay_ms);
    assert forall|i: int, j: int| 0 <= i <= j < s.len() implies s[i] <= s[j] by {
        assert(ts[i] <= ts[j]);
        if i <= index && j > index {
            assert(ts[i] <= ts[index]);
            assert(ts[index] <= ts[j]);
        }
    }
}

/// Setting the delay of frame `index` and then reading it back returns the
/// value that was set, whenever frame `index` is not the last one and the
/// requested timestamp stays representable.
pub proof fn lemma_delay_round_trip(ts: Seq<u64>, index: int, delay_ms: u64)
    requires
        monotone(ts),
        0 <= index,
        index + 1 < ts.len(),
        ts[index] + delay_ms <= u64::MAX,
    ensures
        delay_at(shifted_ts(ts, index, delay_ms), index) == delay_ms,
{
    let s = shifted_ts(ts, index, delay_ms);
    assert(s[index] == ts[index]);
    assert(s[index + 1] == ts[index] + delay_ms);
}

/// An ordered, timestamped sequence of captured frames constituting one
/// recording.
#[derive(Clone)]
pub struct RecordingSession {
    frames: Vec<Frame>,
}

impl RecordingSession {
    /// The frames in capture (or edited) order.
    pub closed spec fn spec_frames(&self) -> Seq<Frame> {
        self.frames@
    }

    /// The timestamps of the frames, in order.
    pub open spec fn timestamps(&self) -> Seq<u64> {
        Seq::new(self.spec_frames().len(), |i: int| self.spec_frames()[i].timestamp_ms)
    }

    /// Timestamps never decrease along the sequence, and every frame's
    /// pixel buffer matches its declared dimensions.
    pub open spec fn wf(&self) -> bool {
        monotone(self.timestamps()) && forall|i: int|
            0 <= i < self.spec_frames().len() ==> (#[trigger] self.spec_frames()[i]).image.wf()
    }

    /// An empty timeline.
    pub fn new() -> (s: RecordingSession)
        ensures
            s.wf(),
            s.spec_frames().len() == 0,
    {
        RecordingSession { frames: Vec::new() }
    }

    /// Appends a frame captured `elapsed_ms` milliseconds after the session
    /// started.  Appends happen in wall-clock order, so the new timestamp is
    /// at least the last one.
    pub fn add_frame(&mut self, image: PixelBuffer, elapsed_ms: u64)
        requires
            old(self).wf(),
            image.wf(),
            old(self).spec_frames().len() > 0 ==> old(self).timestamps()[old(
                self,
            ).spec_frames().len() - 1] <= elapsed_ms,
        ensures
            final(self).wf(),
            final(self).spec_frames() == old(self).spec_frames().push(
                (Frame { image, timestamp_ms: elapsed_ms }),
            ),
    {
        self.frames.push(Frame { image, timestamp_ms: elapsed_ms });
        proof {
            let ts = self.timestamps();
            assert forall|i: int, j: int| 0 <= i <= j < ts.len() implies ts[i] <= ts[j] by {
                if j + 1 == ts.len() {
                    if i + 1 < ts.len() {
                        assert(old(self).timestamps()[i] <= old(self).timestamps()[ts.len() - 2]);
                    }
                } else {
                    assert(old(self).timestamps()[i] <= old(self).timestamps()[j]);
                }
            }
        }
    }

    /// Number of frames currently on the timeline.
    pub fn frame_count(&self) -> (n: usize)
        ensures
            n == self.spec_frames().len(),
    {
        self.frames.len()
    }

    /// Discards every frame.
    pub fn clear(&mut self)
        ensures
            final(self).wf(),
            final(self).spec_frames().len() == 0,
    {
        self.frames.clear();
    }

    /// Removes the frame at `index`, shifting every later frame down by
    /// one; does nothing when `index` is out of range.
    pub fn remove_frame(&mut self, index: usize)
        requires
            old(self).wf(),
        ensures
            final(self).wf(),
            index < old(self).spec_frames().len() ==> final(self).spec_frames() == old(
                self,
            ).spec_frames().remove(index as int),
            index < old(self).spec_frames().len() ==> final(self).spec_frames().len() == old(
                self,
            ).spec_frames().len() - 1,
            index < old(self).spec_frames().len() ==> forall|j: int|
                0 <= j < index ==> final(self).spec_frames()[j] == old(self).spec_frames()[j],
            index < old(self).spec_frames().len() ==> forall|j: int|
                index <= j < old(self).spec_frames().len() - 1 ==> final(self).spec_frames()[j]
                    == old(self).spec_frames()[j + 1],
            index >= old(self).spec_frames().len() ==> final(self).spec_frames() == old(
                self,
            ).spec_frames(),
    {
        if index < self.frames.len() {
            self.frames.remove(index);
            proof {
                old(self).spec_frames().remove_ensures(index as int);
                let ts = self.timestamps();
                assert forall|i: int, j: int| 0 <= i <= j < ts.len() implies ts[i] <= ts[j] by {
                    let oi: int = if i < index { i } else { i + 1 };
                    let oj: int = if j < index { j } else { j + 1 };
                    assert(old(self).timestamps()[oi] <= old(self).timestamps()[oj]);
                }
            }
        }
    }

    /// Read-only access to the frames.
    pub fn frames(&self) -> (r: &Vec<Frame>)
        ensures
            r@ == self.spec_frames(),
    {
        &self.frames
    }

    /// The display delay of frame `index`: the gap to the next frame, or
    /// the fixed fallback for the last frame (and for an out-of-range
    /// index).
    pub fn get_frame_delay(&self, index: usize) -> (d: u64)
        requires
            self.wf(),
        ensures
            d == delay_at(self.timestamps(), index as int),
    {
        if index < self.frames.len() && index + 1 < self.frames.len() {
            proof {
                assert(self.timestamps()[index as int] <= self.timestamps()[index as int + 1]);
            }
            self.frames[index + 1].timestamp_ms - self.frames[index].timestamp_ms
        } else {
            DEFAULT_LAST_FRAME_DELAY_MS
        }
    }

    /// Sets the display delay of frame `index` by re-timing frame
    /// `index + 1` to `timestamp[index] + delay_ms` and shifting every
    /// later frame by the same amount, clamped so that no frame moves
    /// before frame `index`.  Does nothing when `index` is out of range or
    /// is the last frame.
    pub fn set_delay(&mut self, index: usize, delay_ms: u64)
        requires
            old(self).wf(),
        ensures
            final(self).wf(),
            final(self).spec_frames().len() == old(self).spec_frames().len(),
            forall|j: int|
                0 <= j < old(self).spec_frames().len() ==> final(self).spec_frames()[j].image == old(
                    self,
                ).spec_frames()[j].image,
            index + 1 < old(self).spec_frames().len() ==> final(self).timestamps() == shifted_ts(
                old(self).timestamps(),
                index as int,
                delay_ms,
            ),
            index + 1 >= old(self).spec_frames().len() ==> final(self).spec_frames() == old(
                self,
            ).spec_frames(),
    {
        if index < self.frames.len() && index + 1 < self.frames.len() {
            let base = self.frames[index].timestamp_ms;
            let old_next = self.frames[index + 1].timestamp_ms;
            let target = base.saturating_add(delay_ms);
            let ghost old_ts = old(self).timestamps();
            let n = self.frames.len();
            let mut j = index + 1;
            if target >= old_next {
                let shift = target - old_next;
                while j < n
                    invariant
                        index + 1 <= j <= n,
                        n == self.frames.len(),
                        self.spec_frames().len() == old(self).spec_frames().len(),
                        old_ts == old(self).timestamps(),
                        index + 1 < n,
                        base == old_ts[index as int],
                        old_next == old_ts[index as int + 1],
                        target == base.saturating_add(delay_ms),
                        target >= old_next,
                        shift == target - old_next,
                        forall|k: int|
                            0 <= k < n ==> self.spec_frames()[k].image == old(
                                self,
                            ).spec_frames()[k].image,
                        forall|k: int|
                            0 <= k <= index || j <= k < n ==> self.spec_frames()[k].timestamp_ms
                                == old(self).spec_frames()[k].timestamp_ms,
                        forall|k: int|
                            index < k < j ==> self.spec_frames()[k].timestamp_ms == old_ts[
                                k
                            ].saturating_add(shift),
                    decreases n - j,
                {
                    let fr = &mut self.frames[j];
                    let t = fr.timestamp_ms;
                    fr.timestamp_ms = t.saturating_add(shift);
                    j = j + 1;
                }
            } else {
                let shift = old_next - target;
                while j < n
                    invariant
                        index + 1 <= j <= n,
                        n == self.frames.len(),
                        self.spec_frames().len() == old(self).spec_frames().len(),
                        old_ts == old(self).timestamps(),
                        index + 1 < n,
                        base == old_ts[index as int],
                        old_next == old_ts[index as int + 1],
                        target == base.saturating_add(delay_ms),
                        target < old_next,
                        shift == old_next - target,
                        forall|k: int|
                            0 <= k < n ==> self.spec_frames()[k].image == old(
                                self,
                            ).spec_frames()[k].image,
                        forall|k: int|
                            0 <= k <= index || j <= k < n ==> self.spec_frames()[k].timestamp_ms
                                == old(self).spec_frames()[k].timestamp_ms,
                        forall|k: int|
                            index < k < j ==> self.spec_frames()[k].timestamp_ms == ({
                                let lowered = old_ts[k].saturating_sub(shift);
                                if lowered < base {
                                    base
                                } else {
                                    lowered
                                }
                            }),
                    decreases n - j,
                {
                    let fr = &mut self.frames[j];
                    let t = fr.timestamp_ms;
                    let mut lowered = t.saturating_sub(shift);
                    if lowered < base {
                        lowered = base;
                    }
                    fr.timestamp_ms = lowered;
                    j = j + 1;
                }
            }
            proof {
                assert(self.timestamps() =~= shifted_ts(old_ts, index as int, delay_ms));
                lemma_shifted_monotone(old_ts, index as int, delay_ms);
            }
        }
    }
}

} // verus!
