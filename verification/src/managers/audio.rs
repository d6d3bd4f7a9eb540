//! Audio recording state
//!
//! The state machine behind recording sessions: whether a recording is under
//! way and for which binding (keyboard shortcut), the microphone mode, whether
//! the microphone stream is open, and the system volume saved while it is
//! muted. The application owns the recorder and the volume control; each
//! operation here decides what they must do and records its effect.
//!
//! - **OnDemand**: opens the microphone only when recording starts
//! - **AlwaysOn**: keeps the microphone open continuously for lower latency

use vstd::prelude::*;
use crate::text::str_equals;

verus! {

/// Sample rate expected by Whisper models (16kHz)
pub const WHISPER_SAMPLE_RATE: usize = 16000;

/// Recording state of the audio system
#[derive(Clone, Debug)]
pub enum RecordingState {
    /// No active recording
    Idle,
    /// Currently recording audio, started by the shortcut `binding_id`
    Recording { binding_id: String },
}

/// Microphone operation mode
#[derive(Clone, Copy, Debug, PartialEq, Eq, Structural)]
pub enum MicrophoneMode {
    /// Microphone stays open continuously for lowest latency
    AlwaysOn,
    /// Microphone opens only when recording starts
    OnDemand,
}

/// What starting a recording requires.
#[derive(Clone, Copy, Debug, PartialEq, Eq, Structural)]
pub enum StartPlan {
    /// A recording is already under way: the request is refused.
    Busy,
    /// Open the microphone stream, then start the recorder.
    OpenThenStart,
    /// Start the recorder.
    Start,
}

/// What changing the microphone mode requires before the mode is set.
#[derive(Clone, Copy, Debug, PartialEq, Eq, Structural)]
pub enum ModeChange {
    /// Close the microphone stream.
    CloseMicrophone,
    /// Open the microphone stream (if that fails, the mode stays).
    OpenMicrophone,
    /// Nothing to do.
    Nothing,
}

/// What closing the microphone stream requires.
#[derive(Clone, Copy, Debug, PartialEq, Eq, Structural)]
pub struct MicrophoneClose {
    /// The system volume to restore, if it was muted.
    pub restore_volume: Option<u8>,
    /// Whether the recorder is still recording and must be stopped first.
    pub stop_recorder: bool,
}

/// The abstract recording state: `None` when idle, the binding's text when
/// recording.
pub open spec fn state_view(s: RecordingState) -> Option<Seq<char>> {
    match s {
        RecordingState::Idle => None,
        RecordingState::Recording { binding_id } => Some(binding_id@),
    }
}

/// Main audio recording manager state
pub struct AudioRecordingManager {
    state: RecordingState,
    mode: MicrophoneMode,
    is_open: bool,
    is_recording: bool,
    initial_volume: Option<u8>,
}

/// The abstract state of the manager.
pub struct ManagerView {
    /// The binding of the recording under way, if any.
    pub recording: Option<Seq<char>>,
    pub mode: MicrophoneMode,
    pub is_open: bool,
    pub is_recording: bool,
    pub initial_volume: Option<u8>,
}

impl View for AudioRecordingManager {
    type V = ManagerView;

    closed spec fn view(&self) -> ManagerView {
        ManagerView {
            recording: state_view(self.state),
            mode: self.mode,
            is_open: self.is_open,
            is_recording: self.is_recording,
            initial_volume: self.initial_volume,
        }
    }
}

/// Pads a short recording: one that holds samples but less than a second of
/// them is extended with `zero` to 1.25 seconds; others are kept as they are.
pub open spec fn padded<S>(samples: Seq<S>, zero: S) -> Seq<S> {
    if 0 < samples.len() < WHISPER_SAMPLE_RATE {
        samples + Seq::new((WHISPER_SAMPLE_RATE * 5 / 4 - samples.len()) as nat, |i: int| zero)
    } else {
        samples
    }
}

/// Pads a short recording to 1.25 seconds (see [`padded`]).
pub fn pad_samples<S: Copy>(samples: Vec<S>, zero: S) -> (out: Vec<S>)
    ensures
        out@ == padded(samples@, zero),
{
    let len = samples.len();
    if len > 0 && len < WHISPER_SAMPLE_RATE {
        let mut out = samples;
        let target: usize = WHISPER_SAMPLE_RATE * 5 / 4;
        let ghost start = out@;
        while out.len() < target
            invariant
                start.len() == len,
                len <= out@.len() <= target,
                target == 20000,
                out@ == start + Seq::new((out@.len() - len) as nat, |i: int| zero),
            decreases target - out@.len(),
        {
            out.push(zero);
            assert(out@ =~= start + Seq::new((out@.len() - len) as nat, |i: int| zero));
        }
        out
    } else {
        samples
    }
}

impl AudioRecordingManager {
    /// Creates the manager: idle, microphone closed, in always-on mode when
    /// `always_on_microphone` is set (the caller then opens the microphone).
    pub fn new(always_on_microphone: bool) -> (m: Self)
        ensures
            m@ == (ManagerView {
                recording: None,
                mode: if always_on_microphone {
                    MicrophoneMode::AlwaysOn
                } else {
                    MicrophoneMode::OnDemand
                },
                is_open: false,
                is_recording: false,
                initial_volume: None,
            }),
    {
        AudioRecordingManager {
            state: RecordingState::Idle,
            mode: if always_on_microphone {
                MicrophoneMode::AlwaysOn
            } else {
                MicrophoneMode::OnDemand
            },
            is_open: false,
            is_recording: false,
            initial_volume: None,
        }
    }

    /// The recording state.
    pub fn state(&self) -> (s: RecordingState)
        ensures
            state_view(s) == self@.recording,
    {
        match &self.state {
            RecordingState::Idle => RecordingState::Idle,
            RecordingState::Recording { binding_id } => RecordingState::Recording {
                binding_id: binding_id.clone(),
            },
        }
    }

    /// The microphone mode.
    pub fn mode(&self) -> (m: MicrophoneMode)
        ensures
            m == self@.mode,
    {
        self.mode
    }

    /// Whether the microphone stream is open.
    pub fn is_open(&self) -> (b: bool)
        ensures
            b == self@.is_open,
    {
        self.is_open
    }

    /// Whether the recorder is recording.
    pub fn is_recording(&self) -> (b: bool)
        ensures
            b == self@.is_recording,
    {
        self.is_recording
    }

    /// Opening the microphone stream, step one: whether it must be opened
    /// (`false` when it already is).
    pub fn needs_open(&self) -> (b: bool)
        ensures
            b == !self@.is_open,
    {
        !self.is_open
    }

    /// Opening the microphone stream, step two: records the system volume
    /// saved before muting (`None` when the volume is not muted while
    /// recording).
    pub fn save_volume(&mut self, volume: Option<u8>)
        ensures
            final(self)@ == (ManagerView { initial_volume: volume, ..old(self)@ }),
    {
        self.initial_volume = volume;
    }

    /// Opening the microphone stream, last step: the recorder is open.
    pub fn mark_open(&mut self)
        ensures
            final(self)@ == (ManagerView { is_open: true, ..old(self)@ }),
    {
        self.is_open = true;
    }

    /// Closes the microphone stream: `None` when it is not open; otherwise
    /// what the caller must do (restore the saved volume, stop the recorder
    /// if it is recording, then close it), the stream being marked closed.
    pub fn close_microphone(&mut self) -> (plan: Option<MicrophoneClose>)
        ensures
            !old(self)@.is_open ==> plan is None && final(self)@ == old(self)@,
            old(self)@.is_open ==> {
                &&& plan == Some(
                    MicrophoneClose {
                        restore_volume: old(self)@.initial_volume,
                        stop_recorder: old(self)@.is_recording,
                    },
                )
                &&& final(self)@ == (ManagerView {
                    is_open: false,
                    is_recording: false,
                    initial_volume: None,
                    ..old(self)@
                })
            },
    {
        if !self.is_open {
            return None;
        }
        let plan = MicrophoneClose {
            restore_volume: self.initial_volume,
            stop_recorder: self.is_recording,
        };
        self.initial_volume = None;
        self.is_recording = false;
        self.is_open = false;
        Some(plan)
    }

    /// What switching to `new_mode` requires: closing the stream when going
    /// from always-on to on-demand while idle, opening it when going from
    /// on-demand to always-on.
    pub fn plan_mode_change(&self, new_mode: MicrophoneMode) -> (change: ModeChange)
        ensures
            change == (if self@.mode == MicrophoneMode::AlwaysOn && new_mode
                == MicrophoneMode::OnDemand {
                if self@.recording is None {
                    ModeChange::CloseMicrophone
                } else {
                    ModeChange::Nothing
                }
            } else if self@.mode == MicrophoneMode::OnDemand && new_mode
                == MicrophoneMode::AlwaysOn {
                ModeChange::OpenMicrophone
            } else {
                ModeChange::Nothing
            }),
    {
        match (self.mode, new_mode) {
            (MicrophoneMode::AlwaysOn, MicrophoneMode::OnDemand) => match self.state {
                RecordingState::Idle => ModeChange::CloseMicrophone,
                _ => ModeChange::Nothing,
            },
            (MicrophoneMode::OnDemand, MicrophoneMode::AlwaysOn) => ModeChange::OpenMicrophone,
            _ => ModeChange::Nothing,
        }
    }

    /// Sets the microphone mode.
    pub fn set_mode(&mut self, new_mode: MicrophoneMode)
        ensures
            final(self)@ == (ManagerView { mode: new_mode, ..old(self)@ }),
    {
        self.mode = new_mode;
    }

    /// What starting a recording requires: refused while one is under way;
    /// in on-demand mode the microphone stream is opened first.
    pub fn plan_start(&self) -> (plan: StartPlan)
        ensures
            plan == (if self@.recording is Some {
                StartPlan::Busy
            } else if self@.mode == MicrophoneMode::OnDemand {
                StartPlan::OpenThenStart
            } else {
                StartPlan::Start
            }),
    {
        match self.state {
            RecordingState::Recording { .. } => StartPlan::Busy,
            RecordingState::Idle => if self.mode == MicrophoneMode::OnDemand {
                StartPlan::OpenThenStart
            } else {
                StartPlan::Start
            },
        }
    }

    /// The recorder started: the recording of `binding_id` is under way.
    pub fn recording_started(&mut self, binding_id: &str)
        requires
            old(self)@.recording is None,
        ensures
            final(self)@ == (ManagerView {
                recording: Some(binding_id@),
                is_recording: true,
                ..old(self)@
            }),
    {
        self.is_recording = true;
        self.state = RecordingState::Recording { binding_id: binding_id.to_owned() };
    }

    /// Stops the recording of `binding_id`. When it is the recording under
    /// way, the manager becomes idle and the result says whether the
    /// microphone is then to be closed (on-demand mode); otherwise (idle, or
    /// another binding) nothing changes and the result is `None`.
    pub fn stop_recording(&mut self, binding_id: &str) -> (close_microphone: Option<bool>)
        ensures
            old(self)@.recording == Some(binding_id@) ==> {
                &&& close_microphone == Some(old(self)@.mode == MicrophoneMode::OnDemand)
                &&& final(self)@ == (ManagerView {
                    recording: None,
                    is_recording: false,
                    ..old(self)@
                })
            },
            old(self)@.recording != Some(binding_id@) ==> close_microphone is None
                && final(self)@ == old(self)@,
    {
        let matches = match &self.state {
            RecordingState::Recording { binding_id: active } => str_equals(
                active.as_str(),
                binding_id,
            ),
            RecordingState::Idle => false,
        };
        if matches {
            self.state = RecordingState::Idle;
            self.is_recording = false;
            Some(self.mode == MicrophoneMode::OnDemand)
        } else {
            None
        }
    }

    /// Cancels any recording under way without keeping its samples. When one
    /// was under way, the manager becomes idle and the result says whether
    /// the microphone is then to be closed; otherwise the result is `None`.
    pub fn cancel_recording(&mut self) -> (close_microphone: Option<bool>)
        ensures
            old(self)@.recording is Some ==> {
                &&& close_microphone == Some(old(self)@.mode == MicrophoneMode::OnDemand)
                &&& final(self)@ == (ManagerView {
                    recording: None,
                    is_recording: false,
                    ..old(self)@
                })
            },
            old(self)@.recording is None ==> close_microphone is None && final(self)@ == old(
                self,
            )@,
    {
        match self.state {
            RecordingState::Recording { .. } => {
                self.state = RecordingState::Idle;
                self.is_recording = false;
                Some(self.mode == MicrophoneMode::OnDemand)
            },
            RecordingState::Idle => None,
        }
    }
}

} // verus!
