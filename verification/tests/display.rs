use mofa_macos_ime::config::OutputMode;
use mofa_macos_ime::history::{
    add_history_item, clear_history, get_history_items, normalize_history_tab,
    orb_release_command, set_orb_click_handler, History, OrbClickSlot, OrbCommand,
    MAX_HISTORY_ITEMS,
};
use mofa_macos_ime::notice::Clearing;
use mofa_macos_ime::pipeline::Notice;
use mofa_macos_ime::tray::{monitor_title, truncate_middle, MonitorField, TrayState};

#[test]
fn tray_titles_and_symbols() {
    assert_eq!(TrayState::Idle.title(), "就绪");
    assert_eq!(TrayState::Recording.title(), "录音中");
    assert_eq!(TrayState::Processing.title(), "识别中");
    assert_eq!(TrayState::Injected.title(), "已发送");
    assert_eq!(TrayState::Error.title(), "失败");
    assert_eq!(TrayState::Idle.symbol_name(), "circle");
    assert_eq!(TrayState::Recording.symbol_name(), "mic.fill");
    assert_eq!(TrayState::Processing.symbol_name(), "hourglass");
    assert_eq!(TrayState::Injected.symbol_name(), "checkmark.circle.fill");
    assert_eq!(TrayState::Error.symbol_name(), "exclamationmark.triangle.fill");
}

#[test]
fn truncate_middle_keeps_both_ends() {
    assert_eq!(truncate_middle("short", 64), "short");
    assert_eq!(truncate_middle("abcdefghij", 10), "abcdefghij");
    assert_eq!(truncate_middle("abcdefghijklmnop", 9), "abcd…mnop");
    assert_eq!(truncate_middle("abcdefghijklmnop", 8), "abc…mnop");
    assert_eq!(truncate_middle("abcdefghij", 5), "abcde");
    assert_eq!(truncate_middle("abcdefghij", 0), "");
    assert_eq!(truncate_middle("你好世界你好世界你好", 8), "你好世…世界你好");
    let long: String = "x".repeat(100);
    assert_eq!(truncate_middle(&long, 64).chars().count(), 64);
}

#[test]
fn monitor_lines() {
    assert_eq!(monitor_title(MonitorField::State, "就绪"), "状态: 就绪");
    assert_eq!(monitor_title(MonitorField::Asr, "-"), "识别: -");
    assert_eq!(monitor_title(MonitorField::Output, "hello"), "发送: hello");
    let long: String = "a".repeat(31) + &"b".repeat(40);
    let want = format!("提示: {}…{}", "a".repeat(31), "b".repeat(32));
    assert_eq!(monitor_title(MonitorField::Hint, &long), want);
}

#[test]
fn notices_carry_their_texts() {
    let n = Notice::SilenceDetected;
    assert_eq!(n.tray_state(), Some(TrayState::Idle));
    assert_eq!(n.state_label(), Some("无语音"));
    assert_eq!(n.hint(), Some("检测到静音"));
    assert_eq!(n.overlay_status(), Some("失败"));
    assert_eq!(n.overlay_message(), Some("未检测到有效语音"));
    assert_eq!(n.hold_ms(), 760);
    assert_eq!(n.clearing(), Clearing::Fade);

    let n = Notice::RecordingStarted;
    assert_eq!(n.tray_state(), Some(TrayState::Recording));
    assert_eq!(n.state_label(), Some("录音中"));
    assert_eq!(n.hint(), Some("-"));
    assert_eq!(n.overlay_message(), Some("请说话，松开快捷键结束"));
    assert_eq!(n.hold_ms(), 0);
    assert_eq!(n.clearing(), Clearing::Stay);

    let n = Notice::Delivered(OutputMode::Llm);
    assert_eq!(n.tray_state(), Some(TrayState::Injected));
    assert_eq!(n.hint(), Some("发送模式: LLM 润色"));
    assert_eq!(n.hold_ms(), 950);
    assert_eq!(Notice::Delivered(OutputMode::Asr).hint(), Some("发送模式: ASR 原文"));

    assert_eq!(Notice::CaptureStartFailed.clearing(), Clearing::Hide);
    assert_eq!(Notice::CaptureStartFailed.hold_ms(), 900);
    assert_eq!(Notice::RecordingTooShort.hold_ms(), 700);
    assert_eq!(Notice::RecordingTooShort.overlay_message(), Some("录音过短，请重试"));
    assert_eq!(Notice::PreviewHold.hold_ms(), 900);
    assert_eq!(Notice::PreviewHold.overlay_status(), None);
    assert_eq!(Notice::Refining.overlay_status(), Some("润色中"));
    assert_eq!(Notice::LlmMissingFallback.hint(), Some("LLM 未就绪，回退 ASR"));
    assert_eq!(Notice::LlmUnusableFallback.hint(), Some("LLM 输出无效，回退 ASR"));
    assert_eq!(Notice::AsrMissing.overlay_message(), Some("Whisper 未就绪"));
    assert_eq!(Notice::InjectionFailed.state_label(), Some("发送失败"));
    assert_eq!(Notice::NothingRecorded.clearing(), Clearing::Hide);
    assert_eq!(Notice::TranscriptReady.tray_state(), None);
}

#[test]
fn history_keeps_the_newest_first() {
    let mut h = History::new();
    assert!(get_history_items(&h).is_empty());
    assert!(add_history_item(&mut h, "one"));
    assert!(add_history_item(&mut h, "two"));
    assert!(!add_history_item(&mut h, "   "));
    assert!(!add_history_item(&mut h, ""));
    assert_eq!(get_history_items(&h), vec!["two".to_string(), "one".to_string()]);
    clear_history(&mut h);
    assert!(get_history_items(&h).is_empty());
}

#[test]
fn history_holds_fifty_entries() {
    assert_eq!(MAX_HISTORY_ITEMS, 50);
    let mut h = History::new();
    for i in 0..60 {
        assert!(add_history_item(&mut h, &format!("item {}", i)));
    }
    let items = get_history_items(&h);
    assert_eq!(items.len(), 50);
    assert_eq!(items[0], "item 59");
    assert_eq!(items[49], "item 10");
}

#[test]
fn orb_click_receiver_is_set_once() {
    let mut slot: OrbClickSlot<u32> = OrbClickSlot::new();
    assert_eq!(slot.handler, None);
    set_orb_click_handler(&mut slot, 7);
    assert_eq!(slot.handler, Some(7));
    set_orb_click_handler(&mut slot, 8);
    assert_eq!(slot.handler, Some(7));
}

#[test]
fn a_short_press_of_the_orb_is_a_click() {
    assert_eq!(orb_release_command(true, 1000, 1199), Some(OrbCommand::ToggleHistory));
    assert_eq!(orb_release_command(true, 1000, 1000), Some(OrbCommand::ToggleHistory));
    assert_eq!(orb_release_command(true, 1000, 1200), None);
    assert_eq!(orb_release_command(false, 1000, 1100), None);
    assert_eq!(orb_release_command(true, 1000, 999), None);
}

#[test]
fn history_tabs() {
    assert_eq!(normalize_history_tab(0), 0);
    assert_eq!(normalize_history_tab(1), 1);
    assert_eq!(normalize_history_tab(2), 0);
    assert_eq!(normalize_history_tab(usize::MAX), 0);
}
