use crate::config::OutputMode;
use crate::pipeline::{
    spec_after_refinement, spec_after_transcript, spec_finish, spec_step, Command, CycleOutcome,
    Event, HotkeySignal, Notice, QualityRejection, RefinementFallback, WorkerState,
};
use crate::quality::{spec_normalize, spec_should_drop, MIN_RECORDING_SAMPLES};
use vstd::prelude::*;

verus! {

/// The speech model is called only on a recording that is long enough and not silent, and
/// only while a speech model is loaded.
pub proof fn lemma_transcription_needs_speech(
    state: WorkerState<Seq<char>>,
    event: Event<Seq<char>>,
)
    requires
        spec_step(state, event).command == Command::<Seq<char>>::Transcribe,
    ensures
        state matches WorkerState::Stopping { asr_ready, .. } && asr_ready,
        event matches Event::Captured { sample_count, silent } && !silent && sample_count
            >= MIN_RECORDING_SAMPLES,
{
}

/// A silent recording of sufficient length ends the cycle as rejected for silence: the
/// worker is idle again and asks for nothing but the next key signal.
pub proof fn lemma_silence_is_rejected(
    mode: OutputMode,
    asr_ready: bool,
    llm_ready: bool,
    sample_count: usize,
)
    requires
        sample_count >= MIN_RECORDING_SAMPLES,
    ensures
        spec_step(
            WorkerState::Stopping { mode, asr_ready, llm_ready },
            Event::Captured { sample_count, silent: true },
        ) == spec_finish(
            seq![Notice::SilenceDetected],
            CycleOutcome::QualityRejected(QualityRejection::Silence),
        ),
{
}

/// A recording that is too short ends the cycle as rejected, whatever it holds.
pub proof fn lemma_short_recording_is_rejected(
    mode: OutputMode,
    asr_ready: bool,
    llm_ready: bool,
    sample_count: usize,
    silent: bool,
)
    requires
        sample_count < MIN_RECORDING_SAMPLES,
    ensures
        spec_step(
            WorkerState::Stopping { mode, asr_ready, llm_ready },
            Event::Captured { sample_count, silent },
        ) == spec_finish(
            seq![Notice::RecordingTooShort],
            CycleOutcome::QualityRejected(QualityRejection::TooShort),
        ),
{
}

/// No text that the transcript filter would discard is ever handed over for delivery.
pub proof fn lemma_injected_text_is_kept(
    state: WorkerState<Seq<char>>,
    event: Event<Seq<char>>,
)
    ensures
        spec_step(state, event).command matches Command::Inject { text } ==> !spec_should_drop(
            text,
        ),
{
}

/// The language model is called only in refined mode, with a language model loaded, and
/// right after a transcript arrived.
pub proof fn lemma_refinement_only_when_asked(
    state: WorkerState<Seq<char>>,
    event: Event<Seq<char>>,
)
    requires
        spec_step(state, event).command is Refine,
    ensures
        state matches WorkerState::Transcribing { mode, llm_ready } && llm_ready && mode
            == OutputMode::Llm,
        event is Transcribed,
{
}

/// In raw mode a transcript that the filter keeps is delivered as it is, normalized, and
/// the language model is not called.
pub proof fn lemma_raw_mode_delivers_transcript(llm_ready: bool, text: Seq<char>)
    requires
        !spec_should_drop(spec_normalize(text)),
    ensures
        spec_after_transcript(OutputMode::Asr, llm_ready, text).command == (Command::Inject {
            text: spec_normalize(text),
        }),
        spec_after_transcript(OutputMode::Asr, llm_ready, text).state == (WorkerState::<
            Seq<char>,
        >::Injecting { mode: OutputMode::Asr, fallback: None }),
{
}

/// Where the language model's answer normalizes to nothing, the raw transcript is delivered
/// in its place and the fallback is noted.
pub proof fn lemma_empty_answer_falls_back(raw: Seq<char>, answer: Seq<char>)
    requires
        !spec_should_drop(raw),
        spec_normalize(answer).len() == 0,
    ensures
        spec_after_refinement(raw, answer).command == (Command::Inject { text: raw }),
        spec_after_refinement(raw, answer).state == (WorkerState::<Seq<char>>::Injecting {
            mode: OutputMode::Asr,
            fallback: Some(RefinementFallback::LlmUnusable),
        }),
        spec_after_refinement(raw, answer).notices == seq![
            Notice::LlmUnusableFallback,
            Notice::OutputReady,
        ],
{
}

/// A cycle that ends leaves the worker idle, waiting for the next key signal, with at least
/// one notice for the user.
pub proof fn lemma_cycle_end_is_idle(state: WorkerState<Seq<char>>, event: Event<Seq<char>>)
    requires
        spec_step(state, event).outcome is Some,
    ensures
        spec_step(state, event).state == WorkerState::<Seq<char>>::Idle,
        spec_step(state, event).command == Command::<Seq<char>>::AwaitSignal,
        spec_step(state, event).notices.len() > 0,
{
}

/// A capture is started only from the idle state, on a `Down`: while one capture is live no
/// second one begins.
pub proof fn lemma_capture_starts_from_idle(
    state: WorkerState<Seq<char>>,
    event: Event<Seq<char>>,
)
    requires
        spec_step(state, event).command == Command::<Seq<char>>::StartCapture,
    ensures
        state == WorkerState::<Seq<char>>::Idle,
        event == Event::<Seq<char>>::Signal(HotkeySignal::Down),
{
}

/// A `Down` while recording changes nothing.
pub proof fn lemma_down_while_recording_is_ignored()
    ensures
        spec_step(WorkerState::Recording, Event::Signal(HotkeySignal::Down)).state
            == WorkerState::<Seq<char>>::Recording,
        spec_step(WorkerState::Recording, Event::Signal(HotkeySignal::Down)).command
            == Command::<Seq<char>>::AwaitSignal,
        spec_step(WorkerState::Recording, Event::Signal(HotkeySignal::Down)).notices.len() == 0,
        spec_step(WorkerState::Recording, Event::Signal(HotkeySignal::Down)).outcome is None,
{
}

/// An event that the state does not wait for leaves the state as it is and ends no cycle.
pub proof fn lemma_unexpected_event_changes_nothing(
    state: WorkerState<Seq<char>>,
    event: Event<Seq<char>>,
)
    requires
        spec_step(state, event).command == Command::<Seq<char>>::Continue,
    ensures
        spec_step(state, event).state == state,
        spec_step(state, event).notices.len() == 0,
        spec_step(state, event).outcome is None,
{
}

} // verus!
