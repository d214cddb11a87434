//! Decisions of the audio capture path: when to restart capture, when to
//! fill a gap with silence, whether the device's format needs resampling,
//! and how captured samples are cut into encoder frames.
use vstd::prelude::*;

use crate::encoder::{STREAM_CHANNELS, STREAM_SAMPLE_RATE};

verus! {

/// Interleaved samples in one encoder frame: 20 ms of 48 kHz stereo.
pub const FRAME_SAMPLES: usize = 1920;

/// After this many milliseconds without captured data, a frame of silence is emitted.
pub const SILENCE_AFTER_MS: u128 = 25;

/// What the capturer does on its next poll.
#[derive(Clone, Copy, Debug, PartialEq, Eq)]
pub enum CapturePlan {
    /// The default output device changed or the stream failed: set capture up again.
    Reinitialize,
    /// Take the next captured chunk; if there is none, emit a frame of
    /// silence when `silence_if_empty` holds, else nothing.
    Poll { silence_if_empty: bool },
}

/// The capturer's next step, given whether a restart was requested, whether
/// the stream reported a failure, and how long ago data last arrived.
pub open spec fn plan_of(restart_requested: bool, stream_failed: bool, ms_since_data: u128) -> CapturePlan {
    if restart_requested || stream_failed {
        CapturePlan::Reinitialize
    } else {
        CapturePlan::Poll { silence_if_empty: ms_since_data >= SILENCE_AFTER_MS }
    }
}

/// Chooses the capturer's next step.
pub fn capture_plan(restart_requested: bool, stream_failed: bool, ms_since_data: u128) -> (res: CapturePlan)
    ensures
        res == plan_of(restart_requested, stream_failed, ms_since_data),
{
    if restart_requested || stream_failed {
        CapturePlan::Reinitialize
    } else {
        CapturePlan::Poll { silence_if_empty: ms_since_data >= SILENCE_AFTER_MS }
    }
}

/// A device format needs resampling unless it already is the stream's
/// 48 kHz stereo.
pub fn needs_resampling(sample_rate: u32, channels: u16) -> (res: bool)
    ensures
        res == (sample_rate != STREAM_SAMPLE_RATE || channels != STREAM_CHANNELS),
{
    sample_rate != STREAM_SAMPLE_RATE || channels != STREAM_CHANNELS
}

/// Captured samples waiting to be cut into encoder frames, oldest first.
pub struct FrameBuffer<T> {
    pending: Vec<T>,
}

impl<T> View for FrameBuffer<T> {
    type V = Seq<T>;

    closed spec fn view(&self) -> Seq<T> {
        self.pending@
    }
}

impl<T> FrameBuffer<T> {
    /// An empty buffer.
    pub fn new() -> (res: Self)
        ensures
            res@ == Seq::<T>::empty(),
    {
        FrameBuffer { pending: Vec::new() }
    }

    /// The number of samples waiting.
    pub fn len(&self) -> (res: usize)
        ensures
            res == self@.len(),
    {
        self.pending.len()
    }

    /// Appends newly captured samples after those already waiting.
    pub fn push_samples(&mut self, samples: Vec<T>)
        ensures
            final(self)@ == old(self)@ + samples@,
    {
        let mut samples = samples;
        self.pending.append(&mut samples);
    }

    /// Takes the oldest full frame, if a full frame is waiting; the samples
    /// after it stay, in order.
    pub fn pop_frame(&mut self) -> (res: Option<Vec<T>>)
        ensures
            old(self)@.len() >= FRAME_SAMPLES ==> (res matches Some(frame) && frame@
                == old(self)@.take(FRAME_SAMPLES as int) && final(self)@ == old(self)@.skip(
                FRAME_SAMPLES as int,
            )),
            old(self)@.len() < FRAME_SAMPLES ==> res is None && final(self)@ == old(self)@,
    {
        if self.pending.len() < FRAME_SAMPLES {
            return None;
        }
        let mut frame = self.pending.split_off(FRAME_SAMPLES);
        std::mem::swap(&mut self.pending, &mut frame);
        Some(frame)
    }

    /// Drops every waiting sample.
    pub fn clear(&mut self)
        ensures
            final(self)@ == Seq::<T>::empty(),
    {
        self.pending.clear();
    }
}

/// Cutting frames loses no sample and reorders none: a popped frame followed
/// by what stays is exactly what was waiting, and pushing then popping keeps
/// the oldest samples first.
pub proof fn lemma_frames_keep_sample_order<T>(waiting: Seq<T>, incoming: Seq<T>)
    requires
        waiting.len() < FRAME_SAMPLES,
        waiting.len() + incoming.len() >= FRAME_SAMPLES,
    ensures
        (waiting + incoming).take(FRAME_SAMPLES as int) + (waiting + incoming).skip(FRAME_SAMPLES as int)
            == waiting + incoming,
        (waiting + incoming).take(FRAME_SAMPLES as int).take(waiting.len() as int) == waiting,
        (waiting + incoming).skip(FRAME_SAMPLES as int) == incoming.skip(
            FRAME_SAMPLES - waiting.len(),
        ),
{
    let all = waiting + incoming;
    assert(all.take(FRAME_SAMPLES as int) + all.skip(FRAME_SAMPLES as int) =~= all);
    assert(all.take(FRAME_SAMPLES as int).take(waiting.len() as int) =~= waiting);
    assert(all.skip(FRAME_SAMPLES as int) =~= incoming.skip(FRAME_SAMPLES - waiting.len()));
}

/// A requested restart or a failed stream always sets capture up again,
/// however recently data arrived; otherwise capture polls, and fills an empty
/// poll with silence exactly when no data came for 25 ms or more.
pub proof fn lemma_restart_comes_first(restart_requested: bool, stream_failed: bool, ms_since_data: u128)
    ensures
        restart_requested || stream_failed ==> plan_of(restart_requested, stream_failed, ms_since_data)
            == CapturePlan::Reinitialize,
        !restart_requested && !stream_failed ==> plan_of(restart_requested, stream_failed, ms_since_data)
            == (CapturePlan::Poll { silence_if_empty: ms_since_data >= 25 }),
{
}

/// A frame is 1920 interleaved samples: 20 ms of 48 kHz stereo; the stream
/// the encoder expects is 48 kHz stereo.
pub proof fn lemma_frame_is_twenty_ms()
    ensures
        FRAME_SAMPLES == 1920,
        FRAME_SAMPLES == STREAM_SAMPLE_RATE / 1000 * 20 * STREAM_CHANNELS,
        STREAM_SAMPLE_RATE == 48_000,
        STREAM_CHANNELS == 2,
{
}

} // verus!
