//! The capture and playback buffers of a duplex audio stream, and the
//! switches that the two audio callbacks and the control logic share.
//!
//! All samples are mono PCM16 at the wire rate. The playback cursor counts
//! hardware frames: it advances by `RATE_FACTOR` for each wire sample played.

use vstd::prelude::*;
use crate::pcm16::SILENCE;
use crate::resample::{decimated, downsample_decimate, upsampled, RATE_FACTOR};

verus! {

/// What the buffers hold, as plain mathematical values.
pub struct AudioState {
    /// Captured samples that have not been sent yet, oldest first.
    pub capture: Seq<i16>,
    /// Received samples that have not been played to the end yet, oldest first.
    pub playback: Seq<i16>,
    /// Hardware frames of `playback` that have been played already.
    pub cursor: nat,
    /// Whether the playback callback is emitting `playback`.
    pub playing: bool,
    /// Whether the capture callback is to keep what it hears.
    pub recording: bool,
}

impl AudioState {
    /// The state before any audio has been captured or received.
    pub open spec fn initial() -> AudioState {
        AudioState {
            capture: Seq::empty(),
            playback: Seq::empty(),
            cursor: 0,
            playing: false,
            recording: false,
        }
    }

    /// The cursor lies within the buffered audio.
    pub open spec fn cursor_in_bounds(self) -> bool {
        self.cursor <= RATE_FACTOR * self.playback.len()
    }

    /// No sample is held that the cursor has passed completely.
    pub open spec fn pruned(self) -> bool {
        self.cursor < RATE_FACTOR
    }

    /// The invariant of the buffers.
    pub open spec fn well_formed(self) -> bool {
        self.cursor_in_bounds() && self.pruned()
    }

    /// The state with the recording switch set to `recording`.
    pub open spec fn with_recording(self, recording: bool) -> AudioState {
        AudioState { recording, ..self }
    }

    /// The state after the capture callback has delivered `raw`, one channel
    /// of samples at the hardware rate.
    pub open spec fn capture_frame(self, raw: Seq<i16>) -> AudioState {
        if self.recording {
            AudioState { capture: self.capture + decimated(raw, RATE_FACTOR as int), ..self }
        } else {
            self
        }
    }

    /// The state after the captured samples have been taken out.
    pub open spec fn drain_capture(self) -> AudioState {
        AudioState { capture: Seq::empty(), ..self }
    }

    /// The state after `samples` have arrived for playback. Audio that
    /// arrives while nothing is playing starts a fresh playback.
    pub open spec fn push_playback(self, samples: Seq<i16>) -> AudioState {
        if self.playing {
            AudioState { playback: self.playback + samples, ..self }
        } else {
            AudioState { playback: samples, cursor: 0, playing: true, ..self }
        }
    }

    /// The state after playback has been cut off.
    pub open spec fn interrupt_playback(self) -> AudioState {
        AudioState { playback: Seq::empty(), cursor: 0, playing: false, ..self }
    }

    /// The state after the pending playback audio has been dropped.
    pub open spec fn clear_playback(self) -> AudioState {
        AudioState { playback: Seq::empty(), cursor: 0, ..self }
    }

    /// The state after both buffers have been emptied and playback stopped.
    pub open spec fn clear_audio(self) -> AudioState {
        AudioState { capture: Seq::empty(), playback: Seq::empty(), cursor: 0, playing: false, ..self }
    }

    /// Whether a playback frame finds audio to emit.
    pub open spec fn playable(self) -> bool {
        self.playing && self.playback.len() > 0 && self.cursor < RATE_FACTOR * self.playback.len()
    }

    /// Hardware frames of audio that are left to play.
    pub open spec fn frames_left(self) -> int {
        RATE_FACTOR * self.playback.len() - self.cursor
    }

    /// What one channel receives at frame `frame` of the next playback
    /// callback: while audio is left, the buffered audio at the hardware
    /// rate, read from the cursor on; silence otherwise.
    pub open spec fn frame_sample(self, frame: int) -> i16 {
        if self.playable() && 0 <= frame < self.frames_left() {
            upsampled(self.playback, RATE_FACTOR as int)[self.cursor + frame]
        } else {
            SILENCE
        }
    }

    /// What one channel receives from a playback callback of `frame_count`
    /// frames.
    pub open spec fn frame_output(self, frame_count: nat) -> Seq<i16> {
        Seq::new(frame_count, |frame: int| self.frame_sample(frame))
    }

    /// The state after a playback callback of `frame_count` frames.
    ///
    /// While audio is left, the cursor moves on by `frame_count` and the
    /// samples it has passed completely are dropped from the front. A frame
    /// that asks for more than is left ends playback and empties the buffer,
    /// and so does a frame that finds playback on with nothing to play.
    pub open spec fn playback_frame(self, frame_count: nat) -> AudioState {
        if self.playable() {
            if frame_count > self.frames_left() {
                self.interrupt_playback()
            } else {
                AudioState {
                    playback: self.playback.skip((self.cursor + frame_count) as int / (RATE_FACTOR as int)),
                    cursor: ((self.cursor + frame_count) as int % (RATE_FACTOR as int)) as nat,
                    ..self
                }
            }
        } else if self.playing && self.playback.len() == 0 {
            AudioState { cursor: 0, playing: false, ..self }
        } else {
            self
        }
    }

    /// The state after one playback callback for each entry of
    /// `frame_counts`, in order.
    pub open spec fn playback_frames(self, frame_counts: Seq<nat>) -> AudioState
        decreases frame_counts.len(),
    {
        if frame_counts.len() == 0 {
            self
        } else {
            self.playback_frame(frame_counts[0]).playback_frames(frame_counts.drop_first())
        }
    }
}

/// A playback callback keeps the cursor within the buffered audio and leaves
/// no sample in the buffer that the cursor has passed completely.
pub proof fn lemma_playback_frame_well_formed(state: AudioState, frame_count: nat)
    requires
        state.well_formed(),
    ensures
        state.playback_frame(frame_count).cursor_in_bounds(),
        state.playback_frame(frame_count).pruned(),
{
}

/// The same holds after any number of playback callbacks of any sizes.
pub proof fn lemma_playback_frames_well_formed(state: AudioState, frame_counts: Seq<nat>)
    requires
        state.well_formed(),
    ensures
        state.playback_frames(frame_counts).cursor_in_bounds(),
        state.playback_frames(frame_counts).pruned(),
    decreases frame_counts.len(),
{
    if frame_counts.len() > 0 {
        lemma_playback_frame_well_formed(state, frame_counts[0]);
        lemma_playback_frames_well_formed(state.playback_frame(frame_counts[0]), frame_counts.drop_first());
    }
}

/// Every other operation on the buffers keeps them well formed too.
pub proof fn lemma_operations_well_formed(state: AudioState, samples: Seq<i16>, recording: bool)
    requires
        state.well_formed(),
    ensures
        AudioState::initial().well_formed(),
        state.with_recording(recording).well_formed(),
        state.capture_frame(samples).well_formed(),
        state.drain_capture().well_formed(),
        state.push_playback(samples).well_formed(),
        state.interrupt_playback().well_formed(),
        state.clear_playback().well_formed(),
        state.clear_audio().well_formed(),
{
}

/// Playback in pieces emits what playback in one piece emits: a callback of
/// `first + second` frames hears what a callback of `first` frames and then
/// one of `second` frames hear. Dropping played samples from the buffer
/// neither loses nor repeats audio.
pub proof fn lemma_playback_output_continues(state: AudioState, first: nat, second: nat)
    requires
        state.well_formed(),
    ensures
        state.frame_output(first + second) == state.frame_output(first) + state.playback_frame(
            first,
        ).frame_output(second),
{
    let next = state.playback_frame(first);
    let whole = state.frame_output(first + second);
    let pieces = state.frame_output(first) + next.frame_output(second);
    assert forall|k: int| 0 <= k < first + second implies whole[k] == pieces[k] by {
        if k >= first {
            let j = k - first;
            assert(pieces[k] == next.frame_sample(j));
            if state.playable() && first <= state.frames_left() {
                assert(next.frames_left() == state.frames_left() - first);
                if j < next.frames_left() {
                    assert(next.playable());
                    assert((next.cursor + j) / 2 + (state.cursor + first) / 2 == (state.cursor + k) / 2);
                }
            }
        }
    }
    assert(whole =~= pieces);
}

/// A playback callback that asks for at least what is left empties the
/// buffer.
pub proof fn lemma_playback_drains(state: AudioState, frame_count: nat)
    requires
        state.well_formed(),
        state.playing,
        frame_count >= state.frames_left(),
    ensures
        state.playback_frame(frame_count).playback.len() == 0,
        state.playback_frame(frame_count).cursor == 0,
{
}

/// The two audio buffers and the switches that go with them.
#[derive(Debug)]
pub struct DuplexAudioBuffers {
    recorded_audio: Vec<i16>,
    playback_audio: Vec<i16>,
    is_recording: bool,
    is_playing: bool,
    playback_position: usize,
}

impl View for DuplexAudioBuffers {
    type V = AudioState;

    closed spec fn view(&self) -> AudioState {
        AudioState {
            capture: self.recorded_audio@,
            playback: self.playback_audio@,
            cursor: self.playback_position as nat,
            playing: self.is_playing,
            recording: self.is_recording,
        }
    }
}

impl DuplexAudioBuffers {
    #[verifier::type_invariant]
    spec fn holds_well_formed(self) -> bool {
        self@.well_formed()
    }

    /// Empty buffers, with recording and playback off.
    pub fn new() -> (buffers: Self)
        ensures
            buffers@ == AudioState::initial(),
            buffers@.well_formed(),
    {
        DuplexAudioBuffers {
            recorded_audio: Vec::new(),
            playback_audio: Vec::new(),
            is_recording: false,
            is_playing: false,
            playback_position: 0,
        }
    }

    /// Buffers in the given state, if that state is well formed.
    pub fn from_parts(
        recorded_audio: Vec<i16>,
        playback_audio: Vec<i16>,
        playback_position: usize,
        is_playing: bool,
        is_recording: bool,
    ) -> (buffers: Option<Self>)
        ensures
            match buffers {
                Some(b) => b@ == (AudioState {
                    capture: recorded_audio@,
                    playback: playback_audio@,
                    cursor: playback_position as nat,
                    playing: is_playing,
                    recording: is_recording,
                }) && b@.well_formed(),
                None => !(AudioState {
                    capture: recorded_audio@,
                    playback: playback_audio@,
                    cursor: playback_position as nat,
                    playing: is_playing,
                    recording: is_recording,
                }).well_formed(),
            },
    {
        if playback_position == 0 || (playback_position == 1 && playback_audio.len() > 0) {
            Some(DuplexAudioBuffers {
                recorded_audio,
                playback_audio,
                is_recording,
                is_playing,
                playback_position,
            })
        } else {
            None
        }
    }

    /// Whether the capture callback is to keep what it hears.
    pub fn is_recording(&self) -> (recording: bool)
        ensures
            recording == self@.recording,
    {
        self.is_recording
    }

    /// Whether playback is under way.
    pub fn is_playing(&self) -> (playing: bool)
        ensures
            playing == self@.playing,
    {
        self.is_playing
    }

    /// Hardware frames of the playback buffer that have been played already.
    pub fn playback_position(&self) -> (position: usize)
        ensures
            position == self@.cursor,
    {
        self.playback_position
    }

    /// The captured samples that have not been sent yet.
    pub fn recorded_audio(&self) -> (samples: &Vec<i16>)
        ensures
            samples@ == self@.capture,
    {
        &self.recorded_audio
    }

    /// The received samples that have not been played to the end yet.
    pub fn playback_audio(&self) -> (samples: &Vec<i16>)
        ensures
            samples@ == self@.playback,
    {
        &self.playback_audio
    }

    /// Moves the captured samples out and leaves the capture buffer empty.
    fn take_recorded(&mut self) -> (samples: Vec<i16>)
        ensures
            samples@ == old(self)@.capture,
            final(self)@ == old(self)@.drain_capture(),
    {
        proof {
            use_type_invariant(&*self);
        }
        let mut samples: Vec<i16> = Vec::new();
        std::mem::swap(&mut samples, &mut self.recorded_audio);
        samples
    }

    /// Moves the playback samples out and leaves the playback buffer empty,
    /// with the cursor at its start.
    fn take_playback(&mut self) -> (samples: Vec<i16>)
        ensures
            samples@ == old(self)@.playback,
            final(self)@ == old(self)@.clear_playback(),
    {
        proof {
            use_type_invariant(&*self);
        }
        self.playback_position = 0;
        let mut samples: Vec<i16> = Vec::new();
        std::mem::swap(&mut samples, &mut self.playback_audio);
        samples
    }

    /// Puts playback samples and a cursor into an empty playback buffer.
    fn put_playback(&mut self, samples: Vec<i16>, position: usize)
        requires
            old(self)@.playback.len() == 0,
            old(self)@.cursor == 0,
            position <= RATE_FACTOR * samples@.len(),
            position < RATE_FACTOR,
        ensures
            final(self)@ == (AudioState { playback: samples@, cursor: position as nat, ..old(self)@ }),
    {
        self.playback_audio = samples;
        self.playback_position = position;
    }

    /// Turns capture on or off.
    pub fn set_recording(&mut self, recording: bool)
        ensures
            final(self)@ == old(self)@.with_recording(recording),
            final(self)@.well_formed(),
    {
        proof {
            use_type_invariant(&*self);
        }
        self.is_recording = recording;
    }

    /// Takes what the capture callback hands over: one channel of samples at
    /// the hardware rate. While recording is on, every second sample is
    /// appended to the capture buffer; otherwise the frame is dropped.
    pub fn on_capture_frame(&mut self, raw: &[i16])
        ensures
            final(self)@ == old(self)@.capture_frame(raw@),
            final(self)@.well_formed(),
    {
        proof {
            use_type_invariant(&*self);
        }
        if self.is_recording {
            let mut kept: Vec<i16> = downsample_decimate(raw, RATE_FACTOR);
            let mut recorded: Vec<i16> = self.take_recorded();
            recorded.append(&mut kept);
            self.recorded_audio = recorded;
        }
    }

    /// Takes the captured samples out of the buffer, if there are any.
    pub fn drain_capture(&mut self) -> (drained: Option<Vec<i16>>)
        ensures
            final(self)@ == old(self)@.drain_capture(),
            final(self)@.well_formed(),
            match drained {
                Some(samples) => samples@ == old(self)@.capture && samples@.len() > 0,
                None => old(self)@.capture.len() == 0,
            },
    {
        proof {
            use_type_invariant(&*self);
        }
        if self.recorded_audio.len() > 0 {
            Some(self.take_recorded())
        } else {
            assert(self@.capture =~= Seq::empty());
            None
        }
    }

    /// Queues decoded audio for playback. If nothing is playing, what the
    /// buffer still holds is stale: it is dropped and playback starts afresh.
    pub fn push_playback(&mut self, samples: &[i16])
        ensures
            final(self)@ == old(self)@.push_playback(samples@),
            final(self)@.well_formed(),
    {
        proof {
            use_type_invariant(&*self);
        }
        let position: usize = self.playback_position;
        let mut playback: Vec<i16> = self.take_playback();
        if self.is_playing {
            playback.extend_from_slice(samples);
            self.put_playback(playback, position);
            assert(self@.playback == old(self)@.playback + samples@);
        } else {
            playback.clear();
            playback.extend_from_slice(samples);
            assert(playback@ =~= samples@);
            self.put_playback(playback, 0);
            self.is_playing = true;
        }
    }

    /// Cuts playback off: drops all pending audio, stops playing and rewinds
    /// the cursor.
    pub fn interrupt_playback(&mut self)
        ensures
            final(self)@ == old(self)@.interrupt_playback(),
            final(self)@.well_formed(),
    {
        proof {
            use_type_invariant(&*self);
        }
        self.playback_position = 0;
        self.playback_audio = Vec::new();
        self.is_playing = false;
    }

    /// Drops all pending playback audio and rewinds the cursor.
    pub fn clear_playback(&mut self)
        ensures
            final(self)@ == old(self)@.clear_playback(),
            final(self)@.well_formed(),
    {
        proof {
            use_type_invariant(&*self);
        }
        self.playback_position = 0;
        self.playback_audio = Vec::new();
    }

    /// Empties both buffers, stops playback and rewinds the cursor.
    pub fn clear_audio(&mut self)
        ensures
            final(self)@ == old(self)@.clear_audio(),
            final(self)@.well_formed(),
    {
        proof {
            use_type_invariant(&*self);
        }
        self.playback_position = 0;
        self.recorded_audio = Vec::new();
        self.playback_audio = Vec::new();
        self.is_playing = false;
    }
    /// Fills one playback callback: `channel_count` channels of `frame_count`
    /// frames each, every channel with the same samples.
    ///
    /// The output starts as silence. While playback is on and audio is left,
    /// each frame takes the wire sample under the cursor, so that every wire
    /// sample is emitted `RATE_FACTOR` times. When the audio runs out within
    /// the frame, playback stops and the rest of the frame stays silent.
    /// Samples that have been played to the end leave the buffer.
    pub fn on_playback_frame(&mut self, frame_count: usize, channel_count: usize) -> (output: Vec<Vec<i16>>)
        ensures
            final(self)@ == old(self)@.playback_frame(frame_count as nat),
            final(self)@.well_formed(),
            output@.len() == channel_count,
            forall|channel: int| 0 <= channel < channel_count ==> (#[trigger] output@[channel])@ == old(self)@.frame_output(frame_count as nat),
    {
        proof {
            use_type_invariant(&*self);
        }
        let ghost before = self@;
        let mut frame: Vec<i16> = Vec::new();
        if self.is_playing && self.playback_audio.len() > 0 {
            let mut phase: usize = self.playback_position;
            let playback: Vec<i16> = self.take_playback();
            let mut index: usize = 0;
            let mut exhausted: bool = false;
            while frame.len() < frame_count && !exhausted
                invariant
                    before.well_formed(),
                    before.playable(),
                    playback@ == before.playback,
                    frame@.len() <= frame_count,
                    phase < RATE_FACTOR,
                    index <= playback@.len(),
                    index == playback@.len() ==> phase == 0,
                    !exhausted ==> RATE_FACTOR * index + phase == before.cursor + frame@.len(),
                    exhausted ==> index == playback@.len() && phase == 0 && frame@.len() == before.frames_left(),
                    exhausted ==> frame@.len() < frame_count,
                    forall|k: int| 0 <= k < frame@.len() ==> frame@[k] == before.frame_sample(k),
                decreases (frame_count - frame@.len()) + (if exhausted { 0int } else { 1int }),
            {
                if index < playback.len() {
                    frame.push(playback[index]);
                    if phase + 1 == RATE_FACTOR {
                        phase = 0;
                        index = index + 1;
                    } else {
                        phase = phase + 1;
                    }
                } else {
                    exhausted = true;
                }
            }
            if exhausted {
                self.is_playing = false;
            } else {
                let mut rest: Vec<i16> = playback;
                let kept: Vec<i16> = rest.split_off(index);
                assert(kept@ =~= before.playback.skip(index as int));
                self.put_playback(kept, phase);
            }
        } else if self.is_playing {
            self.playback_position = 0;
            self.is_playing = false;
        }
        while frame.len() < frame_count
            invariant
                frame@.len() <= frame_count,
                forall|k: int| 0 <= k < frame@.len() ==> frame@[k] == before.frame_sample(k),
                before.playable() ==> frame@.len() >= before.frames_left() || frame@.len() == frame_count,
            decreases frame_count - frame@.len(),
        {
            frame.push(SILENCE);
        }
        assert(frame@ =~= before.frame_output(frame_count as nat));
        let mut output: Vec<Vec<i16>> = Vec::new();
        while output.len() < channel_count
            invariant
                output@.len() <= channel_count,
                forall|channel: int| 0 <= channel < output@.len() ==> (#[trigger] output@[channel])@ == frame@,
            decreases channel_count - output@.len(),
        {
            output.push(frame.clone());
        }
        output
    }
}

} // verus!
