//! The dictation pipeline as a state machine: hotkey down starts a recording,
//! hotkey up hands the recording through down-mixing, silence trimming, resampling
//! to the recogniser's rate, model loading, transcription, the history and pasting,
//! and back to idle. A run that ends in an error leaves the pipeline in that state,
//! and presses are ignored from then on: only an idle pipeline starts a recording. Each step's
//! outside work (audio, recogniser, clipboard) is done by the caller, which reports
//! its outcome as an event; the machine answers with the next task and the state to
//! announce.
use vstd::prelude::*;

verus! {

/// The state announced to the user interface.
#[derive(Debug, Clone, Copy, PartialEq, Eq, Structural)]
pub enum State {
    Idle,
    Recording,
    Transcribing,
    Pasting,
    Error,
}

impl State {
    /// The name under which the state is announced.
    pub fn as_str(self) -> (s: &'static str)
        ensures
            self == State::Idle ==> s@ == "idle"@,
            self == State::Recording ==> s@ == "recording"@,
            self == State::Transcribing ==> s@ == "transcribing"@,
            self == State::Pasting ==> s@ == "pasting"@,
            self == State::Error ==> s@ == "error"@,
    {
        match self {
            State::Idle => "idle",
            State::Recording => "recording",
            State::Transcribing => "transcribing",
            State::Pasting => "pasting",
            State::Error => "error",
        }
    }
}

/// Which outside task the pipeline is waiting on.
#[derive(Debug, Clone, Copy, PartialEq, Eq, Structural)]
pub enum Stage {
    /// No task outstanding.
    Waiting,
    /// The microphone is being opened.
    Starting,
    /// The recording is being stopped and its samples collected.
    Stopping,
    /// The samples are being down-mixed to mono at the capture rate.
    Converting,
    /// Silence is being trimmed, at the capture rate.
    Trimming,
    /// The speech is being resampled to the recogniser's rate.
    Resampling,
    /// The speech model is being loaded if it is not yet.
    PreparingModel,
    /// The recogniser is running.
    Recognising,
    /// The transcript is being stored and announced.
    Saving,
    /// The transcript is being pasted or copied.
    Pasting,
}

/// What the caller reports to the pipeline.
#[derive(Debug, Clone, Copy, PartialEq, Eq, Structural)]
pub enum Event {
    HotkeyPressed,
    HotkeyReleased,
    CaptureStarted,
    CaptureFailed,
    CaptureStopped { samples: usize },
    CaptureStopFailed,
    Converted { samples: usize },
    Trimmed { samples: usize },
    Resampled { samples: usize },
    ModelReady,
    ModelUnknown,
    ModelLoadFailed,
    Transcribed { empty: bool },
    TranscriptionFailed,
    Saved,
    PasteFinished,
}

/// The outside work the caller is to do next.
#[derive(Debug, Clone, Copy, PartialEq, Eq, Structural)]
pub enum Task {
    Nothing,
    StartCapture,
    StopCapture,
    Convert,
    TrimSilence,
    Resample,
    PrepareModel,
    Transcribe,
    SaveTranscript,
    Paste,
}

/// The pipeline's answer to an event: the next task and the state to announce, if any.
#[derive(Debug, Clone, Copy, PartialEq, Eq, Structural)]
pub struct Reaction {
    pub task: Task,
    pub announce: Option<State>,
}

/// The pipeline's position: the announced state, the outstanding task, and whether
/// a recording session is open.
#[derive(Debug, Clone, Copy, PartialEq, Eq, Structural)]
pub struct Phase {
    pub state: State,
    pub stage: Stage,
    pub session: bool,
}

pub open spec fn react(task: Task, announce: Option<State>) -> Reaction {
    Reaction { task, announce }
}

pub open spec fn no_reaction() -> Reaction {
    react(Task::Nothing, None)
}

/// Ending a run: the given state, announced, with nothing outstanding.
pub open spec fn finish(p: Phase, state: State) -> (Phase, Reaction) {
    (Phase { state, stage: Stage::Waiting, ..p }, react(Task::Nothing, Some(state)))
}

/// Moving on to the next outside task without a change of state.
pub open spec fn proceed(p: Phase, stage: Stage, task: Task) -> (Phase, Reaction) {
    (Phase { stage, ..p }, react(task, None))
}

/// One event: the next phase and the reaction. Events that do not fit the
/// outstanding task are ignored.
pub open spec fn pipeline_step(p: Phase, ev: Event) -> (Phase, Reaction) {
    match (p.stage, ev) {
        // a press opens the microphone, but only when idle
        (Stage::Waiting, Event::HotkeyPressed) => if p.state == State::Idle {
            proceed(p, Stage::Starting, Task::StartCapture)
        } else {
            (p, no_reaction())
        },
        (Stage::Starting, Event::CaptureStarted) => (
            Phase { state: State::Recording, stage: Stage::Waiting, session: true },
            react(Task::Nothing, Some(State::Recording)),
        ),
        // a failed start is announced as an error, the state stays as it was
        (Stage::Starting, Event::CaptureFailed) => (
            Phase { stage: Stage::Waiting, ..p },
            react(Task::Nothing, Some(State::Error)),
        ),
        // a release with an open session hands the recording on
        (Stage::Waiting, Event::HotkeyReleased) => if p.session {
            (
                Phase { state: State::Transcribing, stage: Stage::Stopping, session: false },
                react(Task::StopCapture, Some(State::Transcribing)),
            )
        } else {
            (p, no_reaction())
        },
        (Stage::Stopping, Event::CaptureStopFailed) => finish(p, State::Error),
        (Stage::Stopping, Event::CaptureStopped { samples }) => if samples == 0 {
            finish(p, State::Idle)
        } else {
            proceed(p, Stage::Converting, Task::Convert)
        },
        (Stage::Converting, Event::Converted { samples }) => if samples == 0 {
            finish(p, State::Idle)
        } else {
            proceed(p, Stage::Trimming, Task::TrimSilence)
        },
        (Stage::Trimming, Event::Trimmed { samples }) => if samples == 0 {
            finish(p, State::Idle)
        } else {
            proceed(p, Stage::Resampling, Task::Resample)
        },
        (Stage::Resampling, Event::Resampled { samples }) => if samples == 0 {
            finish(p, State::Idle)
        } else {
            proceed(p, Stage::PreparingModel, Task::PrepareModel)
        },
        (Stage::PreparingModel, Event::ModelReady) => proceed(p, Stage::Recognising, Task::Transcribe),
        (Stage::PreparingModel, Event::ModelUnknown) => finish(p, State::Error),
        (Stage::PreparingModel, Event::ModelLoadFailed) => finish(p, State::Error),
        (Stage::Recognising, Event::TranscriptionFailed) => finish(p, State::Error),
        (Stage::Recognising, Event::Transcribed { empty }) => if empty {
            finish(p, State::Idle)
        } else {
            proceed(p, Stage::Saving, Task::SaveTranscript)
        },
        (Stage::Saving, Event::Saved) => (
            Phase { state: State::Pasting, stage: Stage::Pasting, ..p },
            react(Task::Paste, Some(State::Pasting)),
        ),
        (Stage::Pasting, Event::PasteFinished) => finish(p, State::Idle),
        _ => (p, no_reaction()),
    }
}

/// Whether a stage belongs to processing a finished recording.
pub open spec fn processing(stage: Stage) -> bool {
    stage != Stage::Waiting && stage != Stage::Starting
}

/// The consistency every reachable phase keeps: an open session only while
/// recording; the microphone opened only from idle; processing only while
/// transcribing, and pasting only in the pasting state.
pub open spec fn phase_wf(p: Phase) -> bool {
    &&& p.session ==> (p.state == State::Recording && p.stage == Stage::Waiting)
    &&& p.stage == Stage::Starting ==> (p.state == State::Idle && !p.session)
    &&& (processing(p.stage) && p.stage != Stage::Pasting) ==> p.state == State::Transcribing
    &&& p.stage == Stage::Pasting ==> p.state == State::Pasting
    &&& p.stage == Stage::Waiting ==> (p.state != State::Transcribing && p.state != State::Pasting)
}

/// The pipeline's decisions, one event at a time.
pub struct Pipeline {
    phase: Phase,
    enabled: bool,
}

impl Pipeline {
    pub closed spec fn phase(&self) -> Phase {
        self.phase
    }

    pub closed spec fn spec_enabled(&self) -> bool {
        self.enabled
    }

    /// A pipeline at rest: idle, no session, enabled when a hotkey is configured.
    pub fn new(enabled: bool) -> (p: Pipeline)
        ensures
            p.phase() == (Phase { state: State::Idle, stage: Stage::Waiting, session: false }),
            p.spec_enabled() == enabled,
            phase_wf(p.phase()),
    {
        Pipeline { phase: Phase { state: State::Idle, stage: Stage::Waiting, session: false }, enabled }
    }

    /// The announced state.
    pub fn current_state(&self) -> (s: State)
        ensures
            s == self.phase().state,
    {
        self.phase.state
    }

    /// Marks the pipeline enabled.
    pub fn enable(&mut self)
        ensures
            final(self).spec_enabled(),
            final(self).phase() == old(self).phase(),
    {
        self.enabled = true;
    }

    /// Marks the pipeline disabled and drops an open recording session; returns
    /// whether there was one, which the caller then stops. The announced state is
    /// left as it is.
    pub fn disable(&mut self) -> (dropped: bool)
        ensures
            !final(self).spec_enabled(),
            dropped == old(self).phase().session,
            final(self).phase() == (Phase { session: false, ..old(self).phase() }),
    {
        self.enabled = false;
        let dropped = self.phase.session;
        self.phase.session = false;
        dropped
    }

    fn finish(&mut self, state: State) -> (r: Reaction)
        ensures
            (final(self).phase(), r) == finish(old(self).phase(), state),
            final(self).spec_enabled() == old(self).spec_enabled(),
    {
        self.phase.state = state;
        self.phase.stage = Stage::Waiting;
        Reaction { task: Task::Nothing, announce: Some(state) }
    }

    fn proceed(&mut self, stage: Stage, task: Task) -> (r: Reaction)
        ensures
            (final(self).phase(), r) == proceed(old(self).phase(), stage, task),
            final(self).spec_enabled() == old(self).spec_enabled(),
    {
        self.phase.stage = stage;
        Reaction { task, announce: None }
    }

    /// Handles one event and returns what to do and announce next.
    pub fn handle(&mut self, ev: Event) -> (r: Reaction)
        ensures
            (final(self).phase(), r) == pipeline_step(old(self).phase(), ev),
            final(self).spec_enabled() == old(self).spec_enabled(),
    {
        let ignore = Reaction { task: Task::Nothing, announce: None };
        match (self.phase.stage, ev) {
            (Stage::Waiting, Event::HotkeyPressed) => {
                if self.phase.state == State::Idle {
                    self.proceed(Stage::Starting, Task::StartCapture)
                } else {
                    ignore
                }
            },
            (Stage::Starting, Event::CaptureStarted) => {
                self.phase = Phase { state: State::Recording, stage: Stage::Waiting, session: true };
                Reaction { task: Task::Nothing, announce: Some(State::Recording) }
            },
            (Stage::Starting, Event::CaptureFailed) => {
                self.phase.stage = Stage::Waiting;
                Reaction { task: Task::Nothing, announce: Some(State::Error) }
            },
            (Stage::Waiting, Event::HotkeyReleased) => {
                if self.phase.session {
                    self.phase = Phase { state: State::Transcribing, stage: Stage::Stopping, session: false };
                    Reaction { task: Task::StopCapture, announce: Some(State::Transcribing) }
                } else {
                    ignore
                }
            },
            (Stage::Stopping, Event::CaptureStopFailed) => self.finish(State::Error),
            (Stage::Stopping, Event::CaptureStopped { samples }) => {
                if samples == 0 {
                    self.finish(State::Idle)
                } else {
                    self.proceed(Stage::Converting, Task::Convert)
                }
            },
            (Stage::Converting, Event::Converted { samples }) => {
                if samples == 0 {
                    self.finish(State::Idle)
                } else {
                    self.proceed(Stage::Trimming, Task::TrimSilence)
                }
            },
            (Stage::Trimming, Event::Trimmed { samples }) => {
                if samples == 0 {
                    self.finish(State::Idle)
                } else {
                    self.proceed(Stage::Resampling, Task::Resample)
                }
            },
            (Stage::Resampling, Event::Resampled { samples }) => {
                if samples == 0 {
                    self.finish(State::Idle)
                } else {
                    self.proceed(Stage::PreparingModel, Task::PrepareModel)
                }
            },
            (Stage::PreparingModel, Event::ModelReady) => self.proceed(Stage::Recognising, Task::Transcribe),
            (Stage::PreparingModel, Event::ModelUnknown) => self.finish(State::Error),
            (Stage::PreparingModel, Event::ModelLoadFailed) => self.finish(State::Error),
            (Stage::Recognising, Event::TranscriptionFailed) => self.finish(State::Error),
            (Stage::Recognising, Event::Transcribed { empty }) => {
                if empty {
                    self.finish(State::Idle)
                } else {
                    self.proceed(Stage::Saving, Task::SaveTranscript)
                }
            },
            (Stage::Saving, Event::Saved) => {
                self.phase.state = State::Pasting;
                self.phase.stage = Stage::Pasting;
                Reaction { task: Task::Paste, announce: Some(State::Pasting) }
            },
            (Stage::Pasting, Event::PasteFinished) => self.finish(State::Idle),
            _ => ignore,
        }
    }
}

// ---------------------------------------------------------------------------
// Laws
// ---------------------------------------------------------------------------

/// Every event keeps a well-formed phase well formed.
pub proof fn lemma_step_keeps_wf(p: Phase, ev: Event)
    requires
        phase_wf(p),
    ensures
        phase_wf(pipeline_step(p, ev).0),
{
}

/// A press opens the microphone exactly when the pipeline is idle with nothing
/// outstanding; in every other position it is ignored.
pub proof fn lemma_press_starts_only_when_idle(p: Phase)
    requires
        phase_wf(p),
    ensures
        pipeline_step(p, Event::HotkeyPressed).1.task == Task::StartCapture
            <==> (p.state == State::Idle && p.stage == Stage::Waiting),
        pipeline_step(p, Event::HotkeyPressed).1.task != Task::StartCapture
            ==> pipeline_step(p, Event::HotkeyPressed) == (p, no_reaction()),
{
}

/// Every change of state is announced, as the new state; the one announcement
/// without a change of state is the error reported when the microphone cannot be
/// opened.
pub proof fn lemma_changes_are_announced(p: Phase, ev: Event)
    requires
        phase_wf(p),
    ensures
        ({
            let (q, r) = pipeline_step(p, ev);
            &&& q.state != p.state ==> r.announce == Some(q.state)
            &&& r.announce matches Some(s) ==> (s == q.state || (s == State::Error && ev == Event::CaptureFailed))
        }),
{
}

/// After a run ends in an error, nothing brings the pipeline back: no event
/// changes its phase or asks for any work.
pub proof fn lemma_error_is_final(p: Phase, ev: Event)
    requires
        phase_wf(p),
        p.state == State::Error,
        p.stage == Stage::Waiting,
    ensures
        pipeline_step(p, ev) == (p, no_reaction()),
{
}

/// The position of a stage in the processing of a recording.
pub open spec fn stage_rank(s: Stage) -> nat {
    match s {
        Stage::Waiting => 0,
        Stage::Starting => 0,
        Stage::Stopping => 1,
        Stage::Converting => 2,
        Stage::Trimming => 3,
        Stage::Resampling => 4,
        Stage::PreparingModel => 5,
        Stage::Recognising => 6,
        Stage::Saving => 7,
        Stage::Pasting => 8,
    }
}

/// Processing only moves forward: from a processing stage an event is ignored,
/// moves to a later stage, or ends the run idle or in error.
pub proof fn lemma_processing_moves_forward(p: Phase, ev: Event)
    requires
        phase_wf(p),
        processing(p.stage),
    ensures
        ({
            let (q, r) = pipeline_step(p, ev);
            ||| (q, r) == (p, no_reaction())
            ||| (processing(q.stage) && stage_rank(q.stage) > stage_rank(p.stage))
            ||| (q.stage == Stage::Waiting && (q.state == State::Idle || q.state == State::Error))
        }),
{
}

/// An empty transcript ends the run idle: from recognition, an empty result asks
/// for nothing more, announces idle, and keeps nothing outstanding; a non-empty one
/// goes on to be saved, with no announcement.
pub proof fn lemma_empty_transcript_ends_idle(p: Phase)
    requires
        p.stage == Stage::Recognising,
    ensures
        pipeline_step(p, Event::Transcribed { empty: true }) == (
            Phase { state: State::Idle, stage: Stage::Waiting, session: p.session },
            Reaction { task: Task::Nothing, announce: Some(State::Idle) },
        ),
        pipeline_step(p, Event::Transcribed { empty: false }) == (
            Phase { stage: Stage::Saving, ..p },
            Reaction { task: Task::SaveTranscript, announce: None },
        ),
{
}

/// A transcript is saved only when recognition gave a non-empty one, and pasted only
/// once it has been saved: no event asks for either in any other position.
pub proof fn lemma_save_and_paste_need_a_transcript(p: Phase, ev: Event)
    ensures
        pipeline_step(p, ev).1.task == Task::SaveTranscript
            ==> (p.stage == Stage::Recognising && ev == (Event::Transcribed { empty: false })),
        pipeline_step(p, ev).1.task == Task::Paste ==> (p.stage == Stage::Saving && ev == Event::Saved),
        ev == (Event::Transcribed { empty: true }) ==> pipeline_step(p, ev).1.task == Task::Nothing,
{
}

/// A step that finds no audio ends the run idle: no samples after stopping,
/// down-mixing, trimming or resampling asks for nothing more and announces idle.
pub proof fn lemma_no_audio_ends_idle(p: Phase)
    ensures
        ({
            let done = (
                Phase { state: State::Idle, stage: Stage::Waiting, session: p.session },
                Reaction { task: Task::Nothing, announce: Some(State::Idle) },
            );
            &&& p.stage == Stage::Stopping ==> pipeline_step(p, Event::CaptureStopped { samples: 0 }) == done
            &&& p.stage == Stage::Converting ==> pipeline_step(p, Event::Converted { samples: 0 }) == done
            &&& p.stage == Stage::Trimming ==> pipeline_step(p, Event::Trimmed { samples: 0 }) == done
            &&& p.stage == Stage::Resampling ==> pipeline_step(p, Event::Resampled { samples: 0 }) == done
        }),
{
}

/// A failure after the recording ends the run in error: a failed stop, an unknown
/// model, a model that does not load or a failed recognition asks for nothing more
/// and announces the error.
pub proof fn lemma_failures_end_in_error(p: Phase, ev: Event)
    requires
        (p.stage == Stage::Stopping && ev == Event::CaptureStopFailed)
            || (p.stage == Stage::PreparingModel && (ev == Event::ModelUnknown || ev == Event::ModelLoadFailed))
            || (p.stage == Stage::Recognising && ev == Event::TranscriptionFailed),
    ensures
        pipeline_step(p, ev) == (
            Phase { state: State::Error, stage: Stage::Waiting, session: p.session },
            Reaction { task: Task::Nothing, announce: Some(State::Error) },
        ),
{
}

/// Each stage of processing, on success, asks for the next task in the documented
/// order: stop, down-mix, trim silence, resample, prepare the model, transcribe,
/// save, paste, and back to idle.
pub proof fn lemma_processing_order(p: Phase, n: usize)
    requires
        n > 0,
    ensures
        p.stage == Stage::Stopping ==> pipeline_step(p, Event::CaptureStopped { samples: n }).1.task == Task::Convert,
        p.stage == Stage::Converting ==> pipeline_step(p, Event::Converted { samples: n }).1.task == Task::TrimSilence,
        p.stage == Stage::Trimming ==> pipeline_step(p, Event::Trimmed { samples: n }).1.task == Task::Resample,
        p.stage == Stage::Resampling ==> pipeline_step(p, Event::Resampled { samples: n }).1.task == Task::PrepareModel,
        p.stage == Stage::PreparingModel ==> pipeline_step(p, Event::ModelReady).1.task == Task::Transcribe,
        p.stage == Stage::Recognising ==> pipeline_step(p, Event::Transcribed { empty: false }).1.task == Task::SaveTranscript,
        p.stage == Stage::Saving ==> pipeline_step(p, Event::Saved) == (
            Phase { state: State::Pasting, stage: Stage::Pasting, session: p.session },
            Reaction { task: Task::Paste, announce: Some(State::Pasting) },
        ),
        p.stage == Stage::Pasting ==> pipeline_step(p, Event::PasteFinished) == (
            Phase { state: State::Idle, stage: Stage::Waiting, session: p.session },
            Reaction { task: Task::Nothing, announce: Some(State::Idle) },
        ),
{
}

/// Holding the hotkey records: from idle a press asks to open the microphone; once
/// it is open the pipeline records with a session open; a release with a session
/// open closes it, announces transcribing and asks to stop the capture; a release
/// with no session open is ignored.
pub proof fn lemma_recording_cycle(p: Phase)
    ensures
        (p.state == State::Idle && p.stage == Stage::Waiting) ==> pipeline_step(p, Event::HotkeyPressed) == (
            Phase { stage: Stage::Starting, ..p },
            Reaction { task: Task::StartCapture, announce: None },
        ),
        p.stage == Stage::Starting ==> pipeline_step(p, Event::CaptureStarted) == (
            Phase { state: State::Recording, stage: Stage::Waiting, session: true },
            Reaction { task: Task::Nothing, announce: Some(State::Recording) },
        ),
        (p.stage == Stage::Waiting && p.session) ==> pipeline_step(p, Event::HotkeyReleased) == (
            Phase { state: State::Transcribing, stage: Stage::Stopping, session: false },
            Reaction { task: Task::StopCapture, announce: Some(State::Transcribing) },
        ),
        (p.stage == Stage::Waiting && !p.session) ==> pipeline_step(p, Event::HotkeyReleased) == (
            p,
            Reaction { task: Task::Nothing, announce: None },
        ),
{
}

} // verus!
