//! Energy-based voice activity detection.
//!
//! A frame counts as speech when its energy exceeds the threshold.  Speech starts with the first
//! such frame, and ends after a given number of consecutive frames that are not speech.

use crate::energy;
use crate::energy::Energy;
use vstd::prelude::*;

verus! {

#[derive(Debug, Clone, Copy, PartialEq, Eq, Structural)]
pub enum VadState {
    Silence,
    Speech,
}

#[derive(Debug, Clone, Copy, PartialEq, Eq, Structural)]
pub enum VadEvent {
    SpeechStart,
    SpeechEnd,
}

/// The detector as contracts speak of it.
pub struct VadModel {
    pub state: VadState,
    pub energy_threshold: u32,
    pub silence_frames_threshold: nat,
    pub silence_frame_count: nat,
}

impl VadModel {
    /// The count of silent frames stays below what ends the speech, and is zero in silence.
    pub open spec fn wf(self) -> bool {
        &&& self.silence_frames_threshold <= u32::MAX
        &&& self.silence_frame_count == 0 || self.silence_frame_count
            < self.silence_frames_threshold
        &&& self.state == VadState::Silence ==> self.silence_frame_count == 0
    }

    /// A detector that has not heard anything yet.
    pub open spec fn fresh(energy_threshold: u32, silence_frames_threshold: nat) -> VadModel {
        VadModel {
            state: VadState::Silence,
            energy_threshold,
            silence_frames_threshold,
            silence_frame_count: 0,
        }
    }

    /// Whether one more silent frame ends the speech.
    pub open spec fn last_silent_frame(self) -> bool {
        self.silence_frame_count + 1 >= self.silence_frames_threshold
    }

    /// The event that a frame brings about.
    pub open spec fn event(self, is_speech: bool) -> Option<VadEvent> {
        match self.state {
            VadState::Silence if is_speech => Some(VadEvent::SpeechStart),
            VadState::Speech if !is_speech && self.last_silent_frame() => Some(
                VadEvent::SpeechEnd,
            ),
            _ => None,
        }
    }

    /// The detector after a frame.
    pub open spec fn after(self, is_speech: bool) -> VadModel {
        let quiet = !is_speech && (self.state == VadState::Silence || self.last_silent_frame());
        VadModel {
            state: if quiet {
                VadState::Silence
            } else {
                VadState::Speech
            },
            silence_frame_count: if is_speech || quiet {
                0
            } else {
                self.silence_frame_count + 1
            },
            ..self
        }
    }

    /// The detector after a reset.
    pub open spec fn after_reset(self) -> VadModel {
        VadModel::fresh(self.energy_threshold, self.silence_frames_threshold)
    }

    /// Whether a frame of this energy is speech.
    pub open spec fn is_speech(self, energy: u32) -> bool {
        energy::greater(energy, self.energy_threshold)
    }

    /// The detector after a run of frames, the first of which is the first in `frames`.
    pub open spec fn run(self, frames: Seq<bool>) -> VadModel
        decreases frames.len(),
    {
        if frames.len() == 0 {
            self
        } else {
            self.run(frames.drop_last()).after(frames.last())
        }
    }

    /// The event that the last of a run of frames brings about.
    pub open spec fn last_event(self, frames: Seq<bool>) -> Option<VadEvent>
        recommends
            frames.len() > 0,
    {
        self.run(frames.drop_last()).event(frames.last())
    }
}

pub struct Vad {
    state: VadState,
    energy_threshold: Energy,
    silence_frames_threshold: u32,
    silence_frame_count: u32,
}

impl View for Vad {
    type V = VadModel;

    closed spec fn view(&self) -> VadModel {
        VadModel {
            state: self.state,
            energy_threshold: self.energy_threshold.spec_bits(),
            silence_frames_threshold: self.silence_frames_threshold as nat,
            silence_frame_count: self.silence_frame_count as nat,
        }
    }
}

impl Vad {
    pub fn new(energy_threshold: Energy, silence_frames_threshold: u32) -> (vad: Vad)
        ensures
            vad@ == VadModel::fresh(
                energy_threshold.spec_bits(),
                silence_frames_threshold as nat,
            ),
            vad@.wf(),
    {
        Vad {
            state: VadState::Silence,
            energy_threshold,
            silence_frames_threshold,
            silence_frame_count: 0,
        }
    }

    /// Process a frame of the given energy.  Returns any state change event.
    pub fn process(&mut self, energy: Energy) -> (event: Option<VadEvent>)
        requires
            old(self)@.wf(),
        ensures
            event == old(self)@.event(old(self)@.is_speech(energy.spec_bits())),
            final(self)@ == old(self)@.after(old(self)@.is_speech(energy.spec_bits())),
            final(self)@.wf(),
    {
        let is_speech = energy.exceeds(&self.energy_threshold);
        match self.state {
            VadState::Silence => {
                if is_speech {
                    self.state = VadState::Speech;
                    self.silence_frame_count = 0;
                    Some(VadEvent::SpeechStart)
                } else {
                    None
                }
            },
            VadState::Speech => {
                if is_speech {
                    self.silence_frame_count = 0;
                    None
                } else {
                    self.silence_frame_count = self.silence_frame_count + 1;
                    if self.silence_frame_count >= self.silence_frames_threshold {
                        self.state = VadState::Silence;
                        self.silence_frame_count = 0;
                        Some(VadEvent::SpeechEnd)
                    } else {
                        None
                    }
                }
            },
        }
    }

    /// The event that a frame of the given energy would bring about.
    pub fn event(&self, energy: Energy) -> (event: Option<VadEvent>)
        requires
            self@.wf(),
        ensures
            event == self@.event(self@.is_speech(energy.spec_bits())),
    {
        let is_speech = energy.exceeds(&self.energy_threshold);
        match self.state {
            VadState::Silence => if is_speech {
                Some(VadEvent::SpeechStart)
            } else {
                None
            },
            VadState::Speech => if !is_speech && self.silence_frame_count + 1
                >= self.silence_frames_threshold {
                Some(VadEvent::SpeechEnd)
            } else {
                None
            },
        }
    }

    /// Reset the VAD state.
    pub fn reset(&mut self)
        ensures
            final(self)@ == old(self)@.after_reset(),
    {
        self.state = VadState::Silence;
        self.silence_frame_count = 0;
    }

    /// Get the current state.
    pub fn state(&self) -> (state: VadState)
        ensures
            state == self@.state,
    {
        self.state
    }
}

/// Every run of frames keeps a detector well formed, whatever the frames.
pub proof fn law_run_keeps_wf(vad: VadModel, frames: Seq<bool>)
    requires
        vad.wf(),
    ensures
        vad.run(frames).wf(),
        vad.run(frames).energy_threshold == vad.energy_threshold,
        vad.run(frames).silence_frames_threshold == vad.silence_frames_threshold,
    decreases frames.len(),
{
    if frames.len() > 0 {
        law_run_keeps_wf(vad, frames.drop_last());
    }
}

/// In silence, a frame that is not speech changes nothing, however many of them come.
pub proof fn law_silence_goes_on(vad: VadModel, frames: Seq<bool>)
    requires
        vad.wf(),
        vad.state == VadState::Silence,
        forall|i: int| 0 <= i < frames.len() ==> !#[trigger] frames[i],
    ensures
        vad.run(frames) == vad,
        frames.len() > 0 ==> vad.last_event(frames) is None,
    decreases frames.len(),
{
    if frames.len() > 0 {
        law_silence_goes_on(vad, frames.drop_last());
    }
}

/// After a speech frame, speech lasts through any shorter run of silent frames than the
/// configured number of them, with no event; with the last of them it ends.  A configured
/// number of zero counts as one.
pub proof fn law_speech_ends_after_silence(vad: VadModel, silent: Seq<bool>)
    requires
        vad.wf(),
        silent.len() > 0,
        forall|i: int| 0 <= i < silent.len() ==> !#[trigger] silent[i],
        silent.len() <= vad.silence_frames_threshold || silent.len() == 1,
    ensures
        ({
            let speaking = vad.after(true);
            let ended = speaking.run(silent);
            if silent.len() >= vad.silence_frames_threshold {
                &&& speaking.last_event(silent) == Some(VadEvent::SpeechEnd)
                &&& ended == vad.after_reset()
            } else {
                &&& speaking.last_event(silent) is None
                &&& ended.state == VadState::Speech
                &&& ended.silence_frame_count == silent.len()
            }
        }),
    decreases silent.len(),
{
    let speaking = vad.after(true);
    if silent.len() > 1 {
        law_speech_ends_after_silence(vad, silent.drop_last());
        law_run_keeps_wf(speaking, silent.drop_last());
    } else {
        assert(speaking.run(silent.drop_last()) == speaking);
    }
}

/// A single speech frame makes the detector forget the silence that it has counted so far.
pub proof fn law_speech_frame_restarts_the_count(vad: VadModel)
    requires
        vad.wf(),
    ensures
        vad.after(true).state == VadState::Speech,
        vad.after(true).silence_frame_count == 0,
        vad.state == VadState::Speech ==> vad.event(true) is None,
        vad.state == VadState::Silence ==> vad.event(true) == Some(VadEvent::SpeechStart),
{
}

/// Events alternate: between two starts of speech there is an end, and the other way round.
/// A start is only ever reported out of silence and leads into speech, an end only out of
/// speech and leads into silence; without an event the state stays.
pub proof fn law_events_follow_state(vad: VadModel, is_speech: bool)
    requires
        vad.wf(),
    ensures
        match vad.event(is_speech) {
            Some(VadEvent::SpeechStart) => vad.state == VadState::Silence && vad.after(
                is_speech,
            ).state == VadState::Speech,
            Some(VadEvent::SpeechEnd) => vad.state == VadState::Speech && vad.after(
                is_speech,
            ).state == VadState::Silence,
            None => vad.after(is_speech).state == vad.state,
        },
{
}

/// A new detector hears silence and has the thresholds that it was given; a detector that is reset
/// is like a new one with its own.
pub proof fn law_new_and_reset(vad: VadModel, energy_threshold: u32, silence_frames: nat)
    ensures
        ({
            let new = VadModel::fresh(energy_threshold, silence_frames);
            &&& new.state == VadState::Silence
            &&& new.energy_threshold == energy_threshold
            &&& new.silence_frames_threshold == silence_frames
            &&& new.silence_frame_count == 0
        }),
        vad.after_reset().state == VadState::Silence,
        vad.after_reset().energy_threshold == vad.energy_threshold,
        vad.after_reset().silence_frames_threshold == vad.silence_frames_threshold,
        vad.after_reset().silence_frame_count == 0,
{
}

/// A frame is speech if and only if its energy is greater than the threshold, whatever the
/// detector has heard before.
pub proof fn law_speech_is_above_the_threshold(vad: VadModel, energy: u32)
    ensures
        vad.is_speech(energy) <==> energy::greater(energy, vad.energy_threshold),
{
}

/// What one frame does. In silence, speech starts with a frame that is speech and nothing changes
/// with another. In speech, a frame that is speech clears the count of silent frames; another one
/// raises it by one, and ends the speech if the count comes to the threshold. No frame changes the
/// thresholds.
pub proof fn law_one_frame(vad: VadModel, is_speech: bool)
    requires
        vad.wf(),
    ensures
        ({
            let event = vad.event(is_speech);
            let later = vad.after(is_speech);
            let count = vad.silence_frame_count + 1;
            &&& later.energy_threshold == vad.energy_threshold
            &&& later.silence_frames_threshold == vad.silence_frames_threshold
            &&& if is_speech {
                &&& event == if vad.state == VadState::Silence {
                    Some(VadEvent::SpeechStart)
                } else {
                    None
                }
                &&& later.state == VadState::Speech
                &&& later.silence_frame_count == 0
            } else if vad.state == VadState::Silence {
                &&& event is None
                &&& later == vad
            } else if count < vad.silence_frames_threshold {
                &&& event is None
                &&& later.state == VadState::Speech
                &&& later.silence_frame_count == count
            } else {
                &&& event == Some(VadEvent::SpeechEnd)
                &&& later.state == VadState::Silence
                &&& later.silence_frame_count == 0
            }
        }),
{
}

} // verus!
