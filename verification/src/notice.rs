use crate::config::OutputMode;
use crate::pipeline::{spec_step, Event, Notice, WorkerState};
use crate::tray::TrayState;
use vstd::prelude::*;

verus! {

/// What becomes of the overlay after a notice has been shown and its pause is over.
#[derive(Clone, Copy, Debug, PartialEq, Eq, Structural)]
pub enum Clearing {
    /// The overlay stays as it is.
    Stay,
    /// The overlay is taken off the screen at once.
    Hide,
    /// The overlay fades out.
    Fade,
}

impl Notice {
    /// What the monitor's state entry reads after the notice, where the notice changes it.
    pub open spec fn spec_state_label(self) -> Option<Seq<char>> {
        match self {
            Notice::RecordingStarted => Some("录音中"@),
            Notice::CaptureStartFailed => Some("录音启动失败"@),
            Notice::NothingRecorded => None,
            Notice::Processing => Some("识别中"@),
            Notice::CaptureStopFailed => Some("录音结束失败"@),
            Notice::RecordingTooShort => Some("录音过短"@),
            Notice::SilenceDetected => Some("无语音"@),
            Notice::AsrMissing => Some("ASR 未加载"@),
            Notice::TranscriptionFailed => Some("ASR 失败"@),
            Notice::TranscriptReady => None,
            Notice::TranscriptRejected => Some("空识别结果"@),
            Notice::PreviewHold => None,
            Notice::Refining => None,
            Notice::LlmMissingFallback => None,
            Notice::LlmUnusableFallback => None,
            Notice::ResultRejected => Some("空结果"@),
            Notice::OutputReady => None,
            Notice::InjectionFailed => Some("发送失败"@),
            Notice::Delivered(OutputMode::Llm) => Some("已发送"@),
            Notice::Delivered(OutputMode::Asr) => Some("已发送"@),
        }
    }

    /// The line for the monitor's state entry, where the notice changes it.
    pub fn state_label(self) -> (r: Option<&'static str>)
        ensures
            r is Some == self.spec_state_label() is Some,
            r is Some ==> r->0@ == self.spec_state_label()->0,
    {
        match self {
            Notice::RecordingStarted => Some("录音中"),
            Notice::CaptureStartFailed => Some("录音启动失败"),
            Notice::NothingRecorded => None,
            Notice::Processing => Some("识别中"),
            Notice::CaptureStopFailed => Some("录音结束失败"),
            Notice::RecordingTooShort => Some("录音过短"),
            Notice::SilenceDetected => Some("无语音"),
            Notice::AsrMissing => Some("ASR 未加载"),
            Notice::TranscriptionFailed => Some("ASR 失败"),
            Notice::TranscriptReady => None,
            Notice::TranscriptRejected => Some("空识别结果"),
            Notice::PreviewHold => None,
            Notice::Refining => None,
            Notice::LlmMissingFallback => None,
            Notice::LlmUnusableFallback => None,
            Notice::ResultRejected => Some("空结果"),
            Notice::OutputReady => None,
            Notice::InjectionFailed => Some("发送失败"),
            Notice::Delivered(OutputMode::Llm) => Some("已发送"),
            Notice::Delivered(OutputMode::Asr) => Some("已发送"),
        }
    }

    /// What the monitor's hint entry reads after the notice, where the notice changes it.
    pub open spec fn spec_hint(self) -> Option<Seq<char>> {
        match self {
            Notice::RecordingStarted => Some("-"@),
            Notice::CaptureStartFailed => Some("录音启动失败"@),
            Notice::NothingRecorded => None,
            Notice::Processing => None,
            Notice::CaptureStopFailed => Some("录音结束失败"@),
            Notice::RecordingTooShort => Some("录音过短"@),
            Notice::SilenceDetected => Some("检测到静音"@),
            Notice::AsrMissing => Some("ASR 模型缺失"@),
            Notice::TranscriptionFailed => Some("语音识别失败"@),
            Notice::TranscriptReady => None,
            Notice::TranscriptRejected => Some("未识别到有效语音"@),
            Notice::PreviewHold => None,
            Notice::Refining => None,
            Notice::LlmMissingFallback => Some("LLM 未就绪，回退 ASR"@),
            Notice::LlmUnusableFallback => Some("LLM 输出无效，回退 ASR"@),
            Notice::ResultRejected => Some("结果被过滤"@),
            Notice::OutputReady => None,
            Notice::InjectionFailed => Some("文本发送失败"@),
            Notice::Delivered(OutputMode::Llm) => Some("发送模式: LLM 润色"@),
            Notice::Delivered(OutputMode::Asr) => Some("发送模式: ASR 原文"@),
        }
    }

    /// The line for the monitor's hint entry, where the notice changes it.
    pub fn hint(self) -> (r: Option<&'static str>)
        ensures
            r is Some == self.spec_hint() is Some,
            r is Some ==> r->0@ == self.spec_hint()->0,
    {
        match self {
            Notice::RecordingStarted => Some("-"),
            Notice::CaptureStartFailed => Some("录音启动失败"),
            Notice::NothingRecorded => None,
            Notice::Processing => None,
            Notice::CaptureStopFailed => Some("录音结束失败"),
            Notice::RecordingTooShort => Some("录音过短"),
            Notice::SilenceDetected => Some("检测到静音"),
            Notice::AsrMissing => Some("ASR 模型缺失"),
            Notice::TranscriptionFailed => Some("语音识别失败"),
            Notice::TranscriptReady => None,
            Notice::TranscriptRejected => Some("未识别到有效语音"),
            Notice::PreviewHold => None,
            Notice::Refining => None,
            Notice::LlmMissingFallback => Some("LLM 未就绪，回退 ASR"),
            Notice::LlmUnusableFallback => Some("LLM 输出无效，回退 ASR"),
            Notice::ResultRejected => Some("结果被过滤"),
            Notice::OutputReady => None,
            Notice::InjectionFailed => Some("文本发送失败"),
            Notice::Delivered(OutputMode::Llm) => Some("发送模式: LLM 润色"),
            Notice::Delivered(OutputMode::Asr) => Some("发送模式: ASR 原文"),
        }
    }

    /// What the overlay's status badge reads after the notice, where the notice changes it.
    pub open spec fn spec_overlay_status(self) -> Option<Seq<char>> {
        match self {
            Notice::RecordingStarted => Some("录音中"@),
            Notice::CaptureStartFailed => Some("失败"@),
            Notice::NothingRecorded => None,
            Notice::Processing => Some("转录中"@),
            Notice::CaptureStopFailed => Some("失败"@),
            Notice::RecordingTooShort => Some("失败"@),
            Notice::SilenceDetected => Some("失败"@),
            Notice::AsrMissing => Some("失败"@),
            Notice::TranscriptionFailed => Some("失败"@),
            Notice::TranscriptReady => None,
            Notice::TranscriptRejected => Some("失败"@),
            Notice::PreviewHold => None,
            Notice::Refining => Some("润色中"@),
            Notice::LlmMissingFallback => None,
            Notice::LlmUnusableFallback => None,
            Notice::ResultRejected => Some("失败"@),
            Notice::OutputReady => None,
            Notice::InjectionFailed => Some("失败"@),
            Notice::Delivered(OutputMode::Llm) => Some("已发送"@),
            Notice::Delivered(OutputMode::Asr) => Some("已发送"@),
        }
    }

    /// The word for the overlay's status badge, where the notice changes it.
    pub fn overlay_status(self) -> (r: Option<&'static str>)
        ensures
            r is Some == self.spec_overlay_status() is Some,
            r is Some ==> r->0@ == self.spec_overlay_status()->0,
    {
        match self {
            Notice::RecordingStarted => Some("录音中"),
            Notice::CaptureStartFailed => Some("失败"),
            Notice::NothingRecorded => None,
            Notice::Processing => Some("转录中"),
            Notice::CaptureStopFailed => Some("失败"),
            Notice::RecordingTooShort => Some("失败"),
            Notice::SilenceDetected => Some("失败"),
            Notice::AsrMissing => Some("失败"),
            Notice::TranscriptionFailed => Some("失败"),
            Notice::TranscriptReady => None,
            Notice::TranscriptRejected => Some("失败"),
            Notice::PreviewHold => None,
            Notice::Refining => Some("润色中"),
            Notice::LlmMissingFallback => None,
            Notice::LlmUnusableFallback => None,
            Notice::ResultRejected => Some("失败"),
            Notice::OutputReady => None,
            Notice::InjectionFailed => Some("失败"),
            Notice::Delivered(OutputMode::Llm) => Some("已发送"),
            Notice::Delivered(OutputMode::Asr) => Some("已发送"),
        }
    }

    /// What the overlay's text field reads after the notice, where the notice sets a fixed line.
    pub open spec fn spec_overlay_message(self) -> Option<Seq<char>> {
        match self {
            Notice::RecordingStarted => Some("请说话，松开快捷键结束"@),
            Notice::CaptureStartFailed => Some("录音启动失败"@),
            Notice::NothingRecorded => None,
            Notice::Processing => Some("语音识别进行中"@),
            Notice::CaptureStopFailed => Some("录音结束失败"@),
            Notice::RecordingTooShort => Some("录音过短，请重试"@),
            Notice::SilenceDetected => Some("未检测到有效语音"@),
            Notice::AsrMissing => Some("Whisper 未就绪"@),
            Notice::TranscriptionFailed => Some("语音识别失败"@),
            Notice::TranscriptReady => None,
            Notice::TranscriptRejected => Some("未识别到有效语音"@),
            Notice::PreviewHold => None,
            Notice::Refining => None,
            Notice::LlmMissingFallback => None,
            Notice::LlmUnusableFallback => None,
            Notice::ResultRejected => Some("未识别到有效语音"@),
            Notice::OutputReady => None,
            Notice::InjectionFailed => Some("文本注入失败"@),
            Notice::Delivered(OutputMode::Llm) => Some("文本已写入目标输入框"@),
            Notice::Delivered(OutputMode::Asr) => Some("文本已写入目标输入框"@),
        }
    }

    /// The line for the overlay's text field, where the notice sets a fixed one.
    pub fn overlay_message(self) -> (r: Option<&'static str>)
        ensures
            r is Some == self.spec_overlay_message() is Some,
            r is Some ==> r->0@ == self.spec_overlay_message()->0,
    {
        match self {
            Notice::RecordingStarted => Some("请说话，松开快捷键结束"),
            Notice::CaptureStartFailed => Some("录音启动失败"),
            Notice::NothingRecorded => None,
            Notice::Processing => Some("语音识别进行中"),
            Notice::CaptureStopFailed => Some("录音结束失败"),
            Notice::RecordingTooShort => Some("录音过短，请重试"),
            Notice::SilenceDetected => Some("未检测到有效语音"),
            Notice::AsrMissing => Some("Whisper 未就绪"),
            Notice::TranscriptionFailed => Some("语音识别失败"),
            Notice::TranscriptReady => None,
            Notice::TranscriptRejected => Some("未识别到有效语音"),
            Notice::PreviewHold => None,
            Notice::Refining => None,
            Notice::LlmMissingFallback => None,
            Notice::LlmUnusableFallback => None,
            Notice::ResultRejected => Some("未识别到有效语音"),
            Notice::OutputReady => None,
            Notice::InjectionFailed => Some("文本注入失败"),
            Notice::Delivered(OutputMode::Llm) => Some("文本已写入目标输入框"),
            Notice::Delivered(OutputMode::Asr) => Some("文本已写入目标输入框"),
        }
    }

    /// The state that the tray icon takes with the notice, where the notice changes it.
    pub open spec fn spec_tray_state(self) -> Option<TrayState> {
        match self {
            Notice::RecordingStarted => Some(TrayState::Recording),
            Notice::CaptureStartFailed => Some(TrayState::Error),
            Notice::NothingRecorded => None,
            Notice::Processing => Some(TrayState::Processing),
            Notice::CaptureStopFailed => Some(TrayState::Error),
            Notice::RecordingTooShort => Some(TrayState::Idle),
            Notice::SilenceDetected => Some(TrayState::Idle),
            Notice::AsrMissing => Some(TrayState::Error),
            Notice::TranscriptionFailed => Some(TrayState::Error),
            Notice::TranscriptReady => None,
            Notice::TranscriptRejected => Some(TrayState::Idle),
            Notice::PreviewHold => None,
            Notice::Refining => None,
            Notice::LlmMissingFallback => None,
            Notice::LlmUnusableFallback => None,
            Notice::ResultRejected => Some(TrayState::Idle),
            Notice::OutputReady => None,
            Notice::InjectionFailed => Some(TrayState::Error),
            Notice::Delivered(OutputMode::Llm) => Some(TrayState::Injected),
            Notice::Delivered(OutputMode::Asr) => Some(TrayState::Injected),
        }
    }

    /// The state for the tray icon, where the notice changes it.
    pub fn tray_state(self) -> (r: Option<TrayState>)
        ensures
            r == self.spec_tray_state(),
    {
        match self {
            Notice::RecordingStarted => Some(TrayState::Recording),
            Notice::CaptureStartFailed => Some(TrayState::Error),
            Notice::NothingRecorded => None,
            Notice::Processing => Some(TrayState::Processing),
            Notice::CaptureStopFailed => Some(TrayState::Error),
            Notice::RecordingTooShort => Some(TrayState::Idle),
            Notice::SilenceDetected => Some(TrayState::Idle),
            Notice::AsrMissing => Some(TrayState::Error),
            Notice::TranscriptionFailed => Some(TrayState::Error),
            Notice::TranscriptReady => None,
            Notice::TranscriptRejected => Some(TrayState::Idle),
            Notice::PreviewHold => None,
            Notice::Refining => None,
            Notice::LlmMissingFallback => None,
            Notice::LlmUnusableFallback => None,
            Notice::ResultRejected => Some(TrayState::Idle),
            Notice::OutputReady => None,
            Notice::InjectionFailed => Some(TrayState::Error),
            Notice::Delivered(OutputMode::Llm) => Some(TrayState::Injected),
            Notice::Delivered(OutputMode::Asr) => Some(TrayState::Injected),
        }
    }

    /// For how many milliseconds the worker pauses after showing the notice.
    pub open spec fn spec_hold_ms(self) -> u64 {
        match self {
            Notice::RecordingStarted => 0,
            Notice::CaptureStartFailed => 900,
            Notice::NothingRecorded => 0,
            Notice::Processing => 0,
            Notice::CaptureStopFailed => 900,
            Notice::RecordingTooShort => 700,
            Notice::SilenceDetected => 760,
            Notice::AsrMissing => 900,
            Notice::TranscriptionFailed => 900,
            Notice::TranscriptReady => 0,
            Notice::TranscriptRejected => 900,
            Notice::PreviewHold => 900,
            Notice::Refining => 0,
            Notice::LlmMissingFallback => 0,
            Notice::LlmUnusableFallback => 0,
            Notice::ResultRejected => 760,
            Notice::OutputReady => 0,
            Notice::InjectionFailed => 900,
            Notice::Delivered(OutputMode::Llm) => 950,
            Notice::Delivered(OutputMode::Asr) => 950,
        }
    }

    /// How long the worker pauses after showing the notice, in milliseconds.
    pub fn hold_ms(self) -> (r: u64)
        ensures
            r == self.spec_hold_ms(),
    {
        match self {
            Notice::RecordingStarted => 0,
            Notice::CaptureStartFailed => 900,
            Notice::NothingRecorded => 0,
            Notice::Processing => 0,
            Notice::CaptureStopFailed => 900,
            Notice::RecordingTooShort => 700,
            Notice::SilenceDetected => 760,
            Notice::AsrMissing => 900,
            Notice::TranscriptionFailed => 900,
            Notice::TranscriptReady => 0,
            Notice::TranscriptRejected => 900,
            Notice::PreviewHold => 900,
            Notice::Refining => 0,
            Notice::LlmMissingFallback => 0,
            Notice::LlmUnusableFallback => 0,
            Notice::ResultRejected => 760,
            Notice::OutputReady => 0,
            Notice::InjectionFailed => 900,
            Notice::Delivered(OutputMode::Llm) => 950,
            Notice::Delivered(OutputMode::Asr) => 950,
        }
    }

    /// What becomes of the overlay once the pause is over.
    pub open spec fn spec_clearing(self) -> Clearing {
        match self {
            Notice::RecordingStarted => Clearing::Stay,
            Notice::CaptureStartFailed => Clearing::Hide,
            Notice::NothingRecorded => Clearing::Hide,
            Notice::Processing => Clearing::Stay,
            Notice::CaptureStopFailed => Clearing::Fade,
            Notice::RecordingTooShort => Clearing::Fade,
            Notice::SilenceDetected => Clearing::Fade,
            Notice::AsrMissing => Clearing::Fade,
            Notice::TranscriptionFailed => Clearing::Fade,
            Notice::TranscriptReady => Clearing::Stay,
            Notice::TranscriptRejected => Clearing::Fade,
            Notice::PreviewHold => Clearing::Stay,
            Notice::Refining => Clearing::Stay,
            Notice::LlmMissingFallback => Clearing::Stay,
            Notice::LlmUnusableFallback => Clearing::Stay,
            Notice::ResultRejected => Clearing::Fade,
            Notice::OutputReady => Clearing::Stay,
            Notice::InjectionFailed => Clearing::Fade,
            Notice::Delivered(OutputMode::Llm) => Clearing::Fade,
            Notice::Delivered(OutputMode::Asr) => Clearing::Fade,
        }
    }

    /// What to do with the overlay once the pause is over.
    pub fn clearing(self) -> (r: Clearing)
        ensures
            r == self.spec_clearing(),
    {
        match self {
            Notice::RecordingStarted => Clearing::Stay,
            Notice::CaptureStartFailed => Clearing::Hide,
            Notice::NothingRecorded => Clearing::Hide,
            Notice::Processing => Clearing::Stay,
            Notice::CaptureStopFailed => Clearing::Fade,
            Notice::RecordingTooShort => Clearing::Fade,
            Notice::SilenceDetected => Clearing::Fade,
            Notice::AsrMissing => Clearing::Fade,
            Notice::TranscriptionFailed => Clearing::Fade,
            Notice::TranscriptReady => Clearing::Stay,
            Notice::TranscriptRejected => Clearing::Fade,
            Notice::PreviewHold => Clearing::Stay,
            Notice::Refining => Clearing::Stay,
            Notice::LlmMissingFallback => Clearing::Stay,
            Notice::LlmUnusableFallback => Clearing::Stay,
            Notice::ResultRejected => Clearing::Fade,
            Notice::OutputReady => Clearing::Stay,
            Notice::InjectionFailed => Clearing::Fade,
            Notice::Delivered(OutputMode::Llm) => Clearing::Fade,
            Notice::Delivered(OutputMode::Asr) => Clearing::Fade,
        }
    }
}

/// Every cycle that ends says so on the overlay and then clears the overlay by itself: the
/// last notice of the step sets the status badge, holds for a while, and hides or fades.
pub proof fn lemma_cycle_end_is_shown_and_cleared(
    state: WorkerState<Seq<char>>,
    event: Event<Seq<char>>,
)
    requires
        spec_step(state, event).outcome is Some,
    ensures
        spec_step(state, event).notices.len() > 0,
        spec_step(state, event).notices.last().spec_overlay_status() is Some,
        spec_step(state, event).notices.last().spec_hold_ms() > 0,
        spec_step(state, event).notices.last().spec_clearing() != Clearing::Stay,
{
}

} // verus!
