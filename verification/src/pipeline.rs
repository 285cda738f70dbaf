use crate::config::OutputMode;
use crate::quality::{
    is_template_noise_text, is_too_short, normalize_transcript, should_drop_transcript,
    spec_is_template_noise, spec_normalize, spec_should_drop, MIN_RECORDING_SAMPLES,
};
use crate::refine::{build_refine_prompt, spec_refine_prompt};
use crate::text::{chars_of, spec_trim, string_of, trim};
use vstd::string::StringExecFns;
use vstd::prelude::*;

verus! {

/// What the key listener reports: the hotkey went down, or it came up.
#[derive(Clone, Copy, Debug, PartialEq, Eq, Structural)]
pub enum HotkeySignal {
    Down,
    Up,
}

/// Why a recording could not be had.
#[derive(Clone, Copy, Debug, PartialEq, Eq, Structural)]
pub enum CaptureError {
    NoInputDevice,
    UnsupportedFormat,
    EmptyRecording,
}

/// Why a cycle was given up on purpose, with nothing wrong.
#[derive(Clone, Copy, Debug, PartialEq, Eq, Structural)]
pub enum QualityRejection {
    TooShort,
    Silence,
    Empty,
    Degenerate,
}

/// Why the raw transcript was delivered although refinement was asked for.
#[derive(Clone, Copy, Debug, PartialEq, Eq, Structural)]
pub enum RefinementFallback {
    LlmUnavailable,
    LlmUnusable,
}

/// What went wrong in a cycle that failed.
#[derive(Clone, Copy, Debug, PartialEq, Eq, Structural)]
pub enum CycleError {
    Capture(CaptureError),
    ModelUnavailable,
    Transcription,
    Injection,
}

/// How one cycle ended.
#[derive(Clone, Copy, Debug, PartialEq, Eq, Structural)]
pub enum CycleOutcome {
    Injected { fallback: Option<RefinementFallback> },
    QualityRejected(QualityRejection),
    Failed(CycleError),
}

/// What the worker tells its observers at a transition. The texts, the tray symbol and the
/// time for which a message stays on screen belong to the notice and are found in the
/// `notice` module.
#[derive(Clone, Copy, Debug, PartialEq, Eq, Structural)]
pub enum Notice {
    RecordingStarted,
    CaptureStartFailed,
    NothingRecorded,
    Processing,
    CaptureStopFailed,
    RecordingTooShort,
    SilenceDetected,
    AsrMissing,
    TranscriptionFailed,
    TranscriptReady,
    TranscriptRejected,
    PreviewHold,
    Refining,
    LlmMissingFallback,
    LlmUnusableFallback,
    ResultRejected,
    OutputReady,
    InjectionFailed,
    Delivered(OutputMode),
}

/// Where the worker stands. `T` is the type of text: `String` in running code, `Seq<char>`
/// in contracts.
#[derive(Clone, Debug, PartialEq, Eq)]
pub enum WorkerState<T> {
    /// Nothing is going on; the next `Down` starts a cycle.
    Idle,
    /// The microphone is being opened.
    Starting,
    /// Audio is being captured until the next `Up`.
    Recording,
    /// The key came up; settings are re-read and models refreshed. `recording` says whether
    /// a capture is live.
    Refreshing { recording: bool },
    /// The capture is being stopped and drained.
    Stopping { mode: OutputMode, asr_ready: bool, llm_ready: bool },
    /// The speech model is at work.
    Transcribing { mode: OutputMode, llm_ready: bool },
    /// The language model is at work on the transcript `raw`.
    Refining { raw: T },
    /// The text is being delivered.
    Injecting { mode: OutputMode, fallback: Option<RefinementFallback> },
}

/// What happened outside: a key signal, or the result of the last command.
#[derive(Clone, Debug, PartialEq, Eq)]
pub enum Event<T> {
    Signal(HotkeySignal),
    CaptureStarted,
    CaptureFailed(CaptureError),
    /// Settings were re-read and the models refreshed.
    Refreshed { mode: OutputMode, asr_ready: bool, llm_ready: bool },
    /// The capture was drained: so many samples at 16 kHz, and whether their energy lies
    /// below the silence threshold.
    Captured { sample_count: usize, silent: bool },
    Transcribed(T),
    TranscriptionFailed,
    Refined(T),
    RefinementFailed,
    Injected,
    InjectionFailed,
}

/// What the driver is to do next.
#[derive(Clone, Debug, PartialEq, Eq)]
pub enum Command<T> {
    /// Wait for the next key signal.
    AwaitSignal,
    /// The event was not one that this state waits for: carry on as before.
    Continue,
    /// Open the microphone and start capturing.
    StartCapture,
    /// Stop the progress ticker, re-read the settings and refresh the models.
    Refresh,
    /// Stop the capture and drain the buffer.
    StopCapture,
    /// Run the speech model on the captured samples.
    Transcribe,
    /// Reset the language model's conversation and send it `prompt`.
    Refine { prompt: T },
    /// Deliver `text` to the focused application.
    Inject { text: T },
}

/// The result of one step: the new state, what to tell the observers, what to do next, and
/// how the cycle ended if it ended here.
#[derive(Clone, Debug, PartialEq, Eq)]
pub struct Step {
    pub state: WorkerState<String>,
    pub notices: Vec<Notice>,
    pub command: Command<String>,
    pub outcome: Option<CycleOutcome>,
}

/// A step as contracts see it.
pub struct StepView {
    pub state: WorkerState<Seq<char>>,
    pub notices: Seq<Notice>,
    pub command: Command<Seq<char>>,
    pub outcome: Option<CycleOutcome>,
}

impl View for WorkerState<String> {
    type V = WorkerState<Seq<char>>;

    open spec fn view(&self) -> WorkerState<Seq<char>> {
        match *self {
            WorkerState::Idle => WorkerState::Idle,
            WorkerState::Starting => WorkerState::Starting,
            WorkerState::Recording => WorkerState::Recording,
            WorkerState::Refreshing { recording } => WorkerState::Refreshing { recording },
            WorkerState::Stopping { mode, asr_ready, llm_ready } => WorkerState::Stopping {
                mode,
                asr_ready,
                llm_ready,
            },
            WorkerState::Transcribing { mode, llm_ready } => WorkerState::Transcribing {
                mode,
                llm_ready,
            },
            WorkerState::Refining { raw } => WorkerState::Refining { raw: raw@ },
            WorkerState::Injecting { mode, fallback } => WorkerState::Injecting { mode, fallback },
        }
    }
}

impl View for Event<String> {
    type V = Event<Seq<char>>;

    open spec fn view(&self) -> Event<Seq<char>> {
        match *self {
            Event::Signal(s) => Event::Signal(s),
            Event::CaptureStarted => Event::CaptureStarted,
            Event::CaptureFailed(e) => Event::CaptureFailed(e),
            Event::Refreshed { mode, asr_ready, llm_ready } => Event::Refreshed {
                mode,
                asr_ready,
                llm_ready,
            },
            Event::Captured { sample_count, silent } => Event::Captured { sample_count, silent },
            Event::Transcribed(t) => Event::Transcribed(t@),
            Event::TranscriptionFailed => Event::TranscriptionFailed,
            Event::Refined(t) => Event::Refined(t@),
            Event::RefinementFailed => Event::RefinementFailed,
            Event::Injected => Event::Injected,
            Event::InjectionFailed => Event::InjectionFailed,
        }
    }
}

impl View for Command<String> {
    type V = Command<Seq<char>>;

    open spec fn view(&self) -> Command<Seq<char>> {
        match *self {
            Command::AwaitSignal => Command::AwaitSignal,
            Command::Continue => Command::Continue,
            Command::StartCapture => Command::StartCapture,
            Command::Refresh => Command::Refresh,
            Command::StopCapture => Command::StopCapture,
            Command::Transcribe => Command::Transcribe,
            Command::Refine { prompt } => Command::Refine { prompt: prompt@ },
            Command::Inject { text } => Command::Inject { text: text@ },
        }
    }
}

impl View for Step {
    type V = StepView;

    open spec fn view(&self) -> StepView {
        StepView {
            state: self.state@,
            notices: self.notices@,
            command: self.command@,
            outcome: self.outcome,
        }
    }
}

/// A step that ends the cycle: back to `Idle`, waiting for the next key signal.
pub open spec fn spec_finish(notices: Seq<Notice>, outcome: CycleOutcome) -> StepView {
    StepView {
        state: WorkerState::Idle,
        notices,
        command: Command::AwaitSignal,
        outcome: Some(outcome),
    }
}

/// A step in the middle of a cycle.
pub open spec fn spec_advance(
    state: WorkerState<Seq<char>>,
    notices: Seq<Notice>,
    command: Command<Seq<char>>,
) -> StepView {
    StepView { state, notices, command, outcome: None }
}

/// Why a transcript that is to be discarded is discarded: nothing is left of it, or what is
/// left is noise.
pub open spec fn spec_rejection(text: Seq<char>) -> QualityRejection {
    if spec_normalize(text).len() == 0 {
        QualityRejection::Empty
    } else {
        QualityRejection::Degenerate
    }
}

/// What follows once the captured audio is known.
pub open spec fn spec_after_capture(
    mode: OutputMode,
    asr_ready: bool,
    llm_ready: bool,
    sample_count: usize,
    silent: bool,
) -> StepView {
    if sample_count < MIN_RECORDING_SAMPLES {
        spec_finish(
            seq![Notice::RecordingTooShort],
            CycleOutcome::QualityRejected(QualityRejection::TooShort),
        )
    } else if silent {
        spec_finish(
            seq![Notice::SilenceDetected],
            CycleOutcome::QualityRejected(QualityRejection::Silence),
        )
    } else if !asr_ready {
        spec_finish(seq![Notice::AsrMissing], CycleOutcome::Failed(CycleError::ModelUnavailable))
    } else {
        spec_advance(
            WorkerState::Transcribing { mode, llm_ready },
            Seq::empty(),
            Command::Transcribe,
        )
    }
}

/// What follows once the speech model has returned `text`.
pub open spec fn spec_after_transcript(
    mode: OutputMode,
    llm_ready: bool,
    text: Seq<char>,
) -> StepView {
    let raw = spec_normalize(text);
    if spec_should_drop(raw) {
        spec_finish(
            seq![Notice::TranscriptReady, Notice::TranscriptRejected],
            CycleOutcome::QualityRejected(spec_rejection(raw)),
        )
    } else if mode == OutputMode::Asr {
        spec_advance(
            WorkerState::Injecting { mode: OutputMode::Asr, fallback: None },
            seq![Notice::TranscriptReady, Notice::PreviewHold, Notice::OutputReady],
            Command::Inject { text: raw },
        )
    } else if llm_ready {
        spec_advance(
            WorkerState::Refining { raw },
            seq![Notice::TranscriptReady, Notice::PreviewHold, Notice::Refining],
            Command::Refine { prompt: spec_refine_prompt(raw) },
        )
    } else {
        spec_advance(
            WorkerState::Injecting {
                mode: OutputMode::Asr,
                fallback: Some(RefinementFallback::LlmUnavailable),
            },
            seq![
                Notice::TranscriptReady,
                Notice::PreviewHold,
                Notice::Refining,
                Notice::LlmMissingFallback,
                Notice::OutputReady,
            ],
            Command::Inject { text: raw },
        )
    }
}

/// Whether the language model's answer, in normal form, can stand in for the transcript.
pub open spec fn spec_refined_usable(refined: Seq<char>) -> bool {
    refined.len() > 0 && !spec_is_template_noise(refined)
}

/// What follows when the raw transcript has to stand in for an answer that the language
/// model did not give or that cannot be used.
pub open spec fn spec_fall_back(raw: Seq<char>) -> StepView {
    if spec_should_drop(raw) {
        spec_finish(
            seq![Notice::LlmUnusableFallback, Notice::ResultRejected],
            CycleOutcome::QualityRejected(spec_rejection(raw)),
        )
    } else {
        spec_advance(
            WorkerState::Injecting {
                mode: OutputMode::Asr,
                fallback: Some(RefinementFallback::LlmUnusable),
            },
            seq![Notice::LlmUnusableFallback, Notice::OutputReady],
            Command::Inject { text: raw },
        )
    }
}

/// What follows once the language model has answered with `answer`.
pub open spec fn spec_after_refinement(raw: Seq<char>, answer: Seq<char>) -> StepView {
    let refined = spec_normalize(answer);
    if !spec_refined_usable(refined) {
        spec_fall_back(raw)
    } else if spec_should_drop(refined) {
        spec_finish(
            seq![Notice::ResultRejected],
            CycleOutcome::QualityRejected(spec_rejection(refined)),
        )
    } else {
        spec_advance(
            WorkerState::Injecting { mode: OutputMode::Llm, fallback: None },
            seq![Notice::OutputReady],
            Command::Inject { text: refined },
        )
    }
}

/// The worker's transition function: from a state and an event to the next state, the
/// notices, the next command and, where the cycle ends, its outcome.
///
/// An event that the state does not wait for changes nothing: a `Down` while recording, any
/// result that no command asked for.
pub open spec fn spec_step(state: WorkerState<Seq<char>>, event: Event<Seq<char>>) -> StepView {
    match (state, event) {
        (WorkerState::Idle, Event::Signal(HotkeySignal::Down)) => spec_advance(
            WorkerState::Starting,
            Seq::empty(),
            Command::StartCapture,
        ),
        (WorkerState::Idle, Event::Signal(HotkeySignal::Up)) => spec_advance(
            WorkerState::Refreshing { recording: false },
            Seq::empty(),
            Command::Refresh,
        ),
        (WorkerState::Starting, Event::CaptureStarted) => spec_advance(
            WorkerState::Recording,
            seq![Notice::RecordingStarted],
            Command::AwaitSignal,
        ),
        (WorkerState::Starting, Event::CaptureFailed(e)) => spec_finish(
            seq![Notice::CaptureStartFailed],
            CycleOutcome::Failed(CycleError::Capture(e)),
        ),
        (WorkerState::Recording, Event::Signal(HotkeySignal::Up)) => spec_advance(
            WorkerState::Refreshing { recording: true },
            Seq::empty(),
            Command::Refresh,
        ),
        (WorkerState::Recording, Event::Signal(HotkeySignal::Down)) => spec_advance(
            WorkerState::Recording,
            Seq::empty(),
            Command::AwaitSignal,
        ),
        (WorkerState::Refreshing { recording }, Event::Refreshed { mode, asr_ready, llm_ready }) => {
            if recording {
                spec_advance(
                    WorkerState::Stopping { mode, asr_ready, llm_ready },
                    seq![Notice::Processing],
                    Command::StopCapture,
                )
            } else {
                spec_advance(
                    WorkerState::Idle,
                    seq![Notice::NothingRecorded],
                    Command::AwaitSignal,
                )
            }
        },
        (WorkerState::Stopping { .. }, Event::CaptureFailed(e)) => spec_finish(
            seq![Notice::CaptureStopFailed],
            CycleOutcome::Failed(CycleError::Capture(e)),
        ),
        (
            WorkerState::Stopping { mode, asr_ready, llm_ready },
            Event::Captured { sample_count, silent },
        ) => spec_after_capture(mode, asr_ready, llm_ready, sample_count, silent),
        (WorkerState::Transcribing { .. }, Event::TranscriptionFailed) => spec_finish(
            seq![Notice::TranscriptionFailed],
            CycleOutcome::Failed(CycleError::Transcription),
        ),
        (WorkerState::Transcribing { mode, llm_ready }, Event::Transcribed(text)) => {
            spec_after_transcript(mode, llm_ready, text)
        },
        (WorkerState::Refining { raw }, Event::Refined(answer)) => spec_after_refinement(
            raw,
            answer,
        ),
        (WorkerState::Refining { raw }, Event::RefinementFailed) => spec_fall_back(raw),
        (WorkerState::Injecting { mode, fallback }, Event::Injected) => spec_finish(
            seq![Notice::Delivered(mode)],
            CycleOutcome::Injected { fallback },
        ),
        (WorkerState::Injecting { .. }, Event::InjectionFailed) => spec_finish(
            seq![Notice::InjectionFailed],
            CycleOutcome::Failed(CycleError::Injection),
        ),
        (WorkerState::Idle, _) => spec_advance(state, Seq::empty(), Command::AwaitSignal),
        (WorkerState::Recording, _) => spec_advance(state, Seq::empty(), Command::AwaitSignal),
        _ => spec_advance(state, Seq::empty(), Command::Continue),
    }
}

/// The list that holds one notice.
fn just(notice: Notice) -> (r: Vec<Notice>)
    ensures
        r@ == seq![notice],
{
    let mut r: Vec<Notice> = Vec::new();
    r.push(notice);
    assert(r@ =~= seq![notice]);
    r
}

/// Builds a step that ends the cycle.
fn finish(notices: Vec<Notice>, outcome: CycleOutcome) -> (r: Step)
    ensures
        r@ == spec_finish(notices@, outcome),
{
    Step {
        state: WorkerState::Idle,
        notices,
        command: Command::AwaitSignal,
        outcome: Some(outcome),
    }
}

/// Builds a step in the middle of a cycle.
fn advance(state: WorkerState<String>, notices: Vec<Notice>, command: Command<String>) -> (r:
    Step)
    ensures
        r@ == spec_advance(state@, notices@, command@),
{
    Step { state, notices, command, outcome: None }
}

/// Says why a transcript that is to be discarded is discarded.
pub fn rejection_of(text: &str) -> (r: QualityRejection)
    ensures
        r == spec_rejection(text@),
{
    let n = normalize_transcript(text);
    if n.as_str().unicode_len() == 0 {
        QualityRejection::Empty
    } else {
        QualityRejection::Degenerate
    }
}

/// Decides what follows once the captured audio is known: a recording under a fifth of a
/// second, a silent one, or one for which no speech model is loaded ends the cycle; any
/// other goes to the speech model.
pub fn after_capture(
    mode: OutputMode,
    asr_ready: bool,
    llm_ready: bool,
    sample_count: usize,
    silent: bool,
) -> (r: Step)
    ensures
        r@ == spec_after_capture(mode, asr_ready, llm_ready, sample_count, silent),
{
    if is_too_short(sample_count) {
        finish(
            just(Notice::RecordingTooShort),
            CycleOutcome::QualityRejected(QualityRejection::TooShort),
        )
    } else if silent {
        finish(
            just(Notice::SilenceDetected),
            CycleOutcome::QualityRejected(QualityRejection::Silence),
        )
    } else if !asr_ready {
        finish(just(Notice::AsrMissing), CycleOutcome::Failed(CycleError::ModelUnavailable))
    } else {
        advance(WorkerState::Transcribing { mode, llm_ready }, Vec::new(), Command::Transcribe)
    }
}

/// Decides what follows once the speech model has returned `text`: the transcript is
/// normalized; a transcript not worth delivering ends the cycle; in raw mode, or where no
/// language model is loaded, the transcript is delivered; otherwise it goes to the language
/// model.
pub fn after_transcript(mode: OutputMode, llm_ready: bool, text: &str) -> (r: Step)
    ensures
        r@ == spec_after_transcript(mode, llm_ready, text@),
{
    let raw = normalize_transcript(text);
    if should_drop_transcript(raw.as_str()) {
        let why = rejection_of(raw.as_str());
        finish(
            vec![Notice::TranscriptReady, Notice::TranscriptRejected],
            CycleOutcome::QualityRejected(why),
        )
    } else if mode == OutputMode::Asr {
        advance(
            WorkerState::Injecting { mode: OutputMode::Asr, fallback: None },
            vec![Notice::TranscriptReady, Notice::PreviewHold, Notice::OutputReady],
            Command::Inject { text: raw },
        )
    } else if llm_ready {
        let prompt = build_refine_prompt(raw.as_str());
        advance(
            WorkerState::Refining { raw },
            vec![Notice::TranscriptReady, Notice::PreviewHold, Notice::Refining],
            Command::Refine { prompt },
        )
    } else {
        advance(
            WorkerState::Injecting {
                mode: OutputMode::Asr,
                fallback: Some(RefinementFallback::LlmUnavailable),
            },
            vec![
                Notice::TranscriptReady,
                Notice::PreviewHold,
                Notice::Refining,
                Notice::LlmMissingFallback,
                Notice::OutputReady,
            ],
            Command::Inject { text: raw },
        )
    }
}

/// Decides what follows when the raw transcript has to stand in for the language model's
/// answer.
pub fn fall_back(raw: String) -> (r: Step)
    ensures
        r@ == spec_fall_back(raw@),
{
    if should_drop_transcript(raw.as_str()) {
        let why = rejection_of(raw.as_str());
        finish(
            vec![Notice::LlmUnusableFallback, Notice::ResultRejected],
            CycleOutcome::QualityRejected(why),
        )
    } else {
        advance(
            WorkerState::Injecting {
                mode: OutputMode::Asr,
                fallback: Some(RefinementFallback::LlmUnusable),
            },
            vec![Notice::LlmUnusableFallback, Notice::OutputReady],
            Command::Inject { text: raw },
        )
    }
}

/// Decides what follows once the language model has answered: an answer that is empty or
/// template noise gives way to the raw transcript; the text that remains is weighed once
/// more before it is delivered.
pub fn after_refinement(raw: String, answer: &str) -> (r: Step)
    ensures
        r@ == spec_after_refinement(raw@, answer@),
{
    let refined = normalize_transcript(answer);
    let usable = refined.as_str().unicode_len() > 0 && !is_template_noise_text(refined.as_str());
    if !usable {
        fall_back(raw)
    } else if should_drop_transcript(refined.as_str()) {
        let why = rejection_of(refined.as_str());
        finish(just(Notice::ResultRejected), CycleOutcome::QualityRejected(why))
    } else {
        advance(
            WorkerState::Injecting { mode: OutputMode::Llm, fallback: None },
            just(Notice::OutputReady),
            Command::Inject { text: refined },
        )
    }
}

/// Takes the worker one step on: from where it stands and what has just happened to where
/// it stands next, what it tells its observers, and what the driver is to do.
pub fn step(state: WorkerState<String>, event: Event<String>) -> (r: Step)
    ensures
        r@ == spec_step(state@, event@),
{
    match (state, event) {
        (WorkerState::Idle, Event::Signal(HotkeySignal::Down)) => advance(
            WorkerState::Starting,
            Vec::new(),
            Command::StartCapture,
        ),
        (WorkerState::Idle, Event::Signal(HotkeySignal::Up)) => advance(
            WorkerState::Refreshing { recording: false },
            Vec::new(),
            Command::Refresh,
        ),
        (WorkerState::Starting, Event::CaptureStarted) => advance(
            WorkerState::Recording,
            just(Notice::RecordingStarted),
            Command::AwaitSignal,
        ),
        (WorkerState::Starting, Event::CaptureFailed(e)) => finish(
            just(Notice::CaptureStartFailed),
            CycleOutcome::Failed(CycleError::Capture(e)),
        ),
        (WorkerState::Recording, Event::Signal(HotkeySignal::Up)) => advance(
            WorkerState::Refreshing { recording: true },
            Vec::new(),
            Command::Refresh,
        ),
        (WorkerState::Recording, Event::Signal(HotkeySignal::Down)) => advance(
            WorkerState::Recording,
            Vec::new(),
            Command::AwaitSignal,
        ),
        (WorkerState::Refreshing { recording }, Event::Refreshed { mode, asr_ready, llm_ready }) => {
            if recording {
                advance(
                    WorkerState::Stopping { mode, asr_ready, llm_ready },
                    just(Notice::Processing),
                    Command::StopCapture,
                )
            } else {
                advance(WorkerState::Idle, just(Notice::NothingRecorded), Command::AwaitSignal)
            }
        },
        (WorkerState::Stopping { .. }, Event::CaptureFailed(e)) => finish(
            just(Notice::CaptureStopFailed),
            CycleOutcome::Failed(CycleError::Capture(e)),
        ),
        (
            WorkerState::Stopping { mode, asr_ready, llm_ready },
            Event::Captured { sample_count, silent },
        ) => after_capture(mode, asr_ready, llm_ready, sample_count, silent),
        (WorkerState::Transcribing { .. }, Event::TranscriptionFailed) => finish(
            just(Notice::TranscriptionFailed),
            CycleOutcome::Failed(CycleError::Transcription),
        ),
        (WorkerState::Transcribing { mode, llm_ready }, Event::Transcribed(text)) => {
            after_transcript(mode, llm_ready, text.as_str())
        },
        (WorkerState::Refining { raw }, Event::Refined(answer)) => after_refinement(
            raw,
            answer.as_str(),
        ),
        (WorkerState::Refining { raw }, Event::RefinementFailed) => fall_back(raw),
        (WorkerState::Injecting { mode, fallback }, Event::Injected) => finish(
            just(Notice::Delivered(mode)),
            CycleOutcome::Injected { fallback },
        ),
        (WorkerState::Injecting { .. }, Event::InjectionFailed) => finish(
            just(Notice::InjectionFailed),
            CycleOutcome::Failed(CycleError::Injection),
        ),
        (WorkerState::Idle, _) => advance(WorkerState::Idle, Vec::new(), Command::AwaitSignal),
        (WorkerState::Recording, _) => advance(
            WorkerState::Recording,
            Vec::new(),
            Command::AwaitSignal,
        ),
        (state, _) => advance(state, Vec::new(), Command::Continue),
    }
}

/// The running preview after one more piece of the transcript came in: a piece that is
/// blank adds nothing; any other is trimmed and joined on with one space.
pub open spec fn spec_append_segment(acc: Seq<char>, segment: Seq<char>) -> Seq<char> {
    let piece = spec_trim(segment);
    if piece.len() == 0 {
        acc
    } else if acc.len() == 0 {
        piece
    } else {
        acc.push(' ') + piece
    }
}

/// Adds a piece of the transcript, as the speech model hands it out while it works, to the
/// running preview, and says whether the preview changed.
pub fn append_segment(acc: &mut String, segment: &str) -> (changed: bool)
    ensures
        final(acc)@ == spec_append_segment(old(acc)@, segment@),
        changed == (spec_trim(segment@).len() > 0),
{
    let piece = trim(&chars_of(segment));
    if piece.len() == 0 {
        return false;
    }
    if acc.as_str().unicode_len() > 0 {
        proof {
            reveal_strlit(" ");
        }
        acc.append(" ");
        assert(acc@ =~= old(acc)@.push(' '));
    }
    let text = string_of(&piece);
    acc.append(text.as_str());
    assert(acc@ =~= spec_append_segment(old(acc)@, segment@));
    true
}

} // verus!
