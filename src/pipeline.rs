use vstd::prelude::*;

use crate::transcription::Language;

verus! {

/// Phase of the recording pipeline. Exactly one phase holds at a time, so at
/// most one of recording and processing is under way.
#[derive(Debug, Clone, Copy, PartialEq, Eq, Structural)]
pub enum Phase {
    Idle,
    Recording,
    Processing,
}

/// What the caller of a toggle has to do with the audio source.
#[derive(Debug, Clone, Copy, PartialEq, Eq, Structural)]
pub enum ToggleAction {
    /// Open a capture stream and report the result with `capture_started`.
    StartCapture,
    /// Stop the capture stream and hand its samples to processing.
    StopCapture,
    /// Nothing: a cycle is being processed.
    Ignore,
}

/// A notification to observers of the pipeline.
#[derive(Debug, Clone, PartialEq, Eq)]
pub enum PipelineEvent {
    /// Recording began (`true`) or ended (`false`).
    RecordingState(bool),
    /// Processing began (`true`) or ended (`false`).
    RecordingProcessing(bool),
    /// The raw transcription is available.
    TranscriptionRaw(String),
    /// The final text was delivered.
    TranscriptionComplete(String),
    /// A failure that ends the cycle or keeps it from starting.
    RecordingError(String),
}

impl PipelineEvent {
    /// The channel on which observers receive the event.
    pub fn name(&self) -> (r: &'static str)
        ensures
            r == event_name(*self),
    {
        match self {
            PipelineEvent::RecordingState(_) => "recording-state",
            PipelineEvent::RecordingProcessing(_) => "recording-processing",
            PipelineEvent::TranscriptionRaw(_) => "transcription-raw",
            PipelineEvent::TranscriptionComplete(_) => "transcription-complete",
            PipelineEvent::RecordingError(_) => "recording-error",
        }
    }
}

/// The channel name of an event.
pub open spec fn event_name(e: PipelineEvent) -> &'static str {
    match e {
        PipelineEvent::RecordingState(_) => "recording-state",
        PipelineEvent::RecordingProcessing(_) => "recording-processing",
        PipelineEvent::TranscriptionRaw(_) => "transcription-raw",
        PipelineEvent::TranscriptionComplete(_) => "transcription-complete",
        PipelineEvent::RecordingError(_) => "recording-error",
    }
}

/// Whether the capture stream is open in a phase.
pub open spec fn capture_open(p: Phase) -> bool {
    p == Phase::Recording
}

/// The action a toggle asks for in a phase.
pub open spec fn toggle_action(p: Phase) -> ToggleAction {
    match p {
        Phase::Idle => ToggleAction::StartCapture,
        Phase::Recording => ToggleAction::StopCapture,
        Phase::Processing => ToggleAction::Ignore,
    }
}

/// The phase after a toggle in `p`. A start is taken as under way until its
/// result is reported.
pub open spec fn phase_after_toggle(p: Phase) -> Phase {
    match p {
        Phase::Idle => Phase::Recording,
        Phase::Recording => Phase::Processing,
        Phase::Processing => Phase::Processing,
    }
}

/// The events a toggle in `p` emits.
pub open spec fn toggle_events(p: Phase) -> Seq<PipelineEvent> {
    match p {
        Phase::Recording => seq![PipelineEvent::RecordingState(false), PipelineEvent::RecordingProcessing(true)],
        _ => Seq::empty(),
    }
}

/// The recording state machine: decides, under one exclusive owner, what each
/// toggle does, so that only one cycle is active at a time.
pub struct RecordingState {
    phase: Phase,
}

impl View for RecordingState {
    type V = Phase;

    closed spec fn view(&self) -> Phase {
        self.phase
    }
}

impl RecordingState {
    /// A pipeline at rest.
    pub fn new() -> (r: Self)
        ensures
            r@ == Phase::Idle,
    {
        RecordingState { phase: Phase::Idle }
    }

    /// The current phase.
    pub fn phase(&self) -> (r: Phase)
        ensures
            r == self@,
    {
        self.phase
    }

    /// Whether a recording is under way.
    pub fn is_recording(&self) -> (r: bool)
        ensures
            r == capture_open(self@),
    {
        self.phase == Phase::Recording
    }

    /// Handles one operator toggle. From `Idle` it asks for a capture to
    /// start; from `Recording` it ends the recording and enters `Processing`;
    /// during `Processing` it is ignored, so that no second recording starts
    /// in the middle of a cycle.
    pub fn toggle(&mut self) -> (r: (ToggleAction, Vec<PipelineEvent>))
        ensures
            r.0 == toggle_action(old(self)@),
            final(self)@ == phase_after_toggle(old(self)@),
            r.1@ == toggle_events(old(self)@),
    {
        match self.phase {
            Phase::Idle => {
                self.phase = Phase::Recording;
                (ToggleAction::StartCapture, Vec::new())
            },
            Phase::Recording => {
                self.phase = Phase::Processing;
                let events = vec![
                    PipelineEvent::RecordingState(false),
                    PipelineEvent::RecordingProcessing(true),
                ];
                assert(events@ =~= toggle_events(Phase::Recording));
                (ToggleAction::StopCapture, events)
            },
            Phase::Processing => (ToggleAction::Ignore, Vec::new()),
        }
    }

    /// Reports the result of the capture start that a toggle asked for. On
    /// success the recording goes on; on failure the pipeline returns to
    /// `Idle` and the error is emitted. Outside `Recording` nothing changes.
    pub fn capture_started(&mut self, result: Result<(), String>) -> (r: Vec<PipelineEvent>)
        ensures
            old(self)@ == Phase::Recording ==> match result {
                Ok(_) => final(self)@ == Phase::Recording && r@ == seq![PipelineEvent::RecordingState(true)],
                Err(m) => final(self)@ == Phase::Idle && r@ == seq![PipelineEvent::RecordingError(m)],
            },
            old(self)@ != Phase::Recording ==> final(self)@ == old(self)@ && r@.len() == 0,
    {
        if self.phase != Phase::Recording {
            return Vec::new();
        }
        match result {
            Ok(()) => vec![PipelineEvent::RecordingState(true)],
            Err(m) => {
                self.phase = Phase::Idle;
                vec![PipelineEvent::RecordingError(m)]
            },
        }
    }

    /// Ends the processing of a cycle, whatever its outcome: the pipeline
    /// returns to `Idle`. Outside `Processing` nothing changes.
    pub fn processing_finished(&mut self) -> (r: Vec<PipelineEvent>)
        ensures
            old(self)@ == Phase::Processing ==> final(self)@ == Phase::Idle && r@ == seq![
                PipelineEvent::RecordingProcessing(false),
            ],
            old(self)@ != Phase::Processing ==> final(self)@ == old(self)@ && r@.len() == 0,
    {
        if self.phase != Phase::Processing {
            return Vec::new();
        }
        self.phase = Phase::Idle;
        vec![PipelineEvent::RecordingProcessing(false)]
    }
}

/// Message of the error that ends every cycle while no speech model is loaded.
pub const TRANSCRIBER_UNAVAILABLE: &'static str = "Transcriber not initialized";

/// Why a cycle produced no transcription.
#[derive(Debug, Clone, PartialEq, Eq)]
pub enum TranscriptionFailure {
    /// No speech model was loaded at startup.
    Unavailable,
    /// The engine failed, with its message.
    Failed(String),
}

/// What became of the optional refinement of a transcription.
#[derive(Debug, Clone, PartialEq, Eq)]
pub enum RefineOutcome {
    /// No credential is configured: refinement did not run.
    Skipped,
    /// The remote call failed, with its message.
    Failed(String),
    /// The service returned this text.
    Refined(String),
}

/// The next step of a cycle's processing.
#[derive(Debug, Clone, PartialEq, Eq)]
pub enum NextStep {
    /// Refine the raw text, with the detected language as a hint.
    Refine(String, Language),
    /// Deliver this text.
    Deliver(String),
    /// Nothing more to do: the cycle ended with an error.
    Finish,
}

/// The step after transcription.
pub open spec fn step_after_transcription(
    result: Result<(String, Language), TranscriptionFailure>,
    refine_configured: bool,
) -> NextStep {
    match result {
        Ok((raw, lang)) => if refine_configured {
            NextStep::Refine(raw, lang)
        } else {
            NextStep::Deliver(raw)
        },
        Err(_) => NextStep::Finish,
    }
}

/// Whether `events` are what transcription with `result` emits: the raw
/// text on success, one error otherwise.
pub open spec fn transcription_events(
    result: Result<(String, Language), TranscriptionFailure>,
    events: Seq<PipelineEvent>,
) -> bool {
    match result {
        Ok((raw, _)) => events == seq![PipelineEvent::TranscriptionRaw(raw)],
        Err(TranscriptionFailure::Failed(m)) => events == seq![PipelineEvent::RecordingError(m)],
        Err(TranscriptionFailure::Unavailable) => events.len() == 1 && events[0] is RecordingError
            && events[0]->RecordingError_0@ == TRANSCRIBER_UNAVAILABLE@,
    }
}

/// The text that is delivered for the raw transcription `raw`: the refined
/// text when refinement returned a non-empty one, the raw text otherwise.
pub open spec fn delivered_text(raw: Seq<char>, outcome: RefineOutcome) -> Seq<char> {
    match outcome {
        RefineOutcome::Refined(t) => if t@.len() > 0 {
            t@
        } else {
            raw
        },
        _ => raw,
    }
}

/// Decides what follows transcription. A missing model or an engine failure
/// ends the cycle with an error; a transcription is announced and goes to
/// refinement when a credential is configured, straight to delivery otherwise.
pub fn after_transcription(
    result: Result<(String, Language), TranscriptionFailure>,
    refine_configured: bool,
) -> (r: (NextStep, Vec<PipelineEvent>))
    ensures
        r.0 == step_after_transcription(result, refine_configured),
        transcription_events(result, r.1@),
{
    match result {
        Ok((raw, lang)) => {
            let events = vec![PipelineEvent::TranscriptionRaw(raw.clone())];
            assert(events@ =~= seq![PipelineEvent::TranscriptionRaw(raw)]);
            let next = if refine_configured {
                NextStep::Refine(raw, lang)
            } else {
                NextStep::Deliver(raw)
            };
            (next, events)
        },
        Err(TranscriptionFailure::Unavailable) => {
            let message = String::from_str(TRANSCRIBER_UNAVAILABLE);
            let events = vec![PipelineEvent::RecordingError(message)];
            assert(events@[0] == PipelineEvent::RecordingError(message));
            (NextStep::Finish, events)
        },
        Err(TranscriptionFailure::Failed(m)) => {
            let events = vec![PipelineEvent::RecordingError(m)];
            assert(events@ =~= seq![PipelineEvent::RecordingError(m)]);
            (NextStep::Finish, events)
        },
    }
}

/// The text to deliver: refinement is an enhancement, never a dependency, so
/// a skipped or failed refinement, or an empty refined text, falls back to the
/// raw transcription.
pub fn delivery_text(raw: String, outcome: RefineOutcome) -> (r: String)
    ensures
        r@ == delivered_text(raw@, outcome),
        !(outcome is Refined) ==> r@ == raw@,
        raw@.len() > 0 ==> r@.len() > 0,
{
    match outcome {
        RefineOutcome::Refined(t) => {
            if t.as_str().is_empty() {
                raw
            } else {
                t
            }
        },
        _ => raw,
    }
}

/// Events after delivery: the delivered text on success, the error otherwise.
pub fn after_delivery(text: String, result: Result<(), String>) -> (r: Vec<PipelineEvent>)
    ensures
        result is Ok ==> r@ == seq![PipelineEvent::TranscriptionComplete(text)],
        result matches Err(m) ==> r@ == seq![PipelineEvent::RecordingError(m)],
{
    match result {
        Ok(()) => vec![PipelineEvent::TranscriptionComplete(text)],
        Err(m) => vec![PipelineEvent::RecordingError(m)],
    }
}

/// A missing or failed refinement delivers the raw transcription exactly:
/// without a credential a transcription goes straight to delivery, and a
/// skipped or failed refinement delivers the raw text.
pub proof fn lemma_fallback_delivers_raw(raw: String, lang: Language, message: String)
    ensures
        step_after_transcription(Ok((raw, lang)), false) == NextStep::Deliver(raw),
        delivered_text(raw@, RefineOutcome::Skipped) == raw@,
        delivered_text(raw@, RefineOutcome::Failed(message)) == raw@,
{
}

/// A non-empty transcription is never delivered as an empty text, whatever
/// refinement returned.
pub proof fn lemma_never_empty(raw: Seq<char>, outcome: RefineOutcome)
    requires
        raw.len() > 0,
    ensures
        delivered_text(raw, outcome).len() > 0,
{
}

/// Toggles never open a second capture: a start is asked for only while no
/// capture is open, the pipeline leaves `Idle` as soon as it is asked for,
/// and during `Processing` a toggle neither starts a capture nor changes the
/// phase. From `Idle`, two toggles lead to `Processing` with no capture open,
/// and a third is ignored.
pub proof fn lemma_one_capture_at_a_time(p: Phase)
    ensures
        toggle_action(p) == ToggleAction::StartCapture ==> !capture_open(p) && phase_after_toggle(p)
            != Phase::Idle,
        p == Phase::Processing ==> toggle_action(p) == ToggleAction::Ignore && phase_after_toggle(p) == p,
        phase_after_toggle(phase_after_toggle(Phase::Idle)) == Phase::Processing,
        !capture_open(phase_after_toggle(phase_after_toggle(Phase::Idle))),
        toggle_action(phase_after_toggle(phase_after_toggle(Phase::Idle))) == ToggleAction::Ignore,
{
}

} // verus!
