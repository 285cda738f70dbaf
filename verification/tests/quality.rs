use mofa_macos_ime::quality::{
    compact_for_filter, is_filler_punct, is_template_noise_text, is_too_short, noise_pattern,
    normalize_transcript, should_drop_transcript, MIN_RECORDING_SAMPLES, NOISE_PATTERN_COUNT,
};
use mofa_macos_ime::refine::{build_refine_prompt, mostly_english, refine_head_en, refine_head_zh};

#[test]
fn normalize_collapses_whitespace_runs() {
    assert_eq!(normalize_transcript(" a   b\n\tc "), "a b c");
}

#[test]
fn normalize_handles_edges() {
    assert_eq!(normalize_transcript(""), "");
    assert_eq!(normalize_transcript(" \t\r\n "), "");
    assert_eq!(normalize_transcript("word"), "word");
    assert_eq!(normalize_transcript("\u{3000}你好\u{3000}\u{3000}世界\u{a0}"), "你好 世界");
}

#[test]
fn normalize_is_idempotent_on_samples() {
    for s in ["  hello   world ", "a\tb", "", "x", " 多  个   空格 "] {
        let once = normalize_transcript(s);
        assert_eq!(normalize_transcript(&once), once);
        assert_eq!(once.trim(), once);
        assert!(!once.contains("  "));
    }
}

#[test]
fn should_drop_blank_and_keep_speech() {
    assert!(should_drop_transcript(""));
    assert!(should_drop_transcript("   "));
    assert!(!should_drop_transcript("hello there"));
}

#[test]
fn should_drop_counts_content_characters() {
    assert!(should_drop_transcript("o"));
    assert!(should_drop_transcript(" k. "));
    assert!(should_drop_transcript("好"));
    assert!(should_drop_transcript("?!…"));
    assert!(!should_drop_transcript("ok"));
    assert!(!should_drop_transcript("你好"));
}

#[test]
fn should_drop_template_answers() {
    assert!(should_drop_transcript("Please provide the audio content."));
    assert!(should_drop_transcript("好的，请提供需要转写和润色的语音内容。"));
    assert!(should_drop_transcript("(No valid audio)"));
    assert!(!should_drop_transcript("please provide the report by friday"));
}

#[test]
fn compact_strips_and_lowercases() {
    assert_eq!(compact_for_filter("Hello, World!"), "helloworld");
    assert_eq!(compact_for_filter(" “你好”，世界…… "), "你好世界");
    assert_eq!(compact_for_filter("A-B_c"), "a-b_c");
    assert_eq!(compact_for_filter(""), "");
}

#[test]
fn filler_punctuation_set() {
    for c in "，。！？；：、（）【】.,!?;:()[]\"'“”…".chars() {
        assert!(is_filler_punct(c), "{:?}", c);
    }
    for c in "-_/a1好《》".chars() {
        assert!(!is_filler_punct(c), "{:?}", c);
    }
}

#[test]
fn template_noise_detection() {
    assert!(is_template_noise_text(""));
    assert!(is_template_noise_text(" ... "));
    assert!(is_template_noise_text("请提供语音内容"));
    assert!(is_template_noise_text("未识别到语音。"));
    assert!(is_template_noise_text("Please Provide Voice Input"));
    assert!(is_template_noise_text("xx please provide voice to transcribe yy"));
    assert!(!is_template_noise_text("hello"));
    assert!(!is_template_noise_text("a"));
}

#[test]
fn noise_patterns_are_compact() {
    for k in 0..NOISE_PATTERN_COUNT {
        let p = noise_pattern(k);
        assert_eq!(compact_for_filter(p), p);
        assert!(is_template_noise_text(p));
    }
    assert_eq!(noise_pattern(3), "请提供语音内容");
    assert_eq!(noise_pattern(10), "novalidaudio");
}

#[test]
fn minimum_duration() {
    assert_eq!(MIN_RECORDING_SAMPLES, 3200);
    assert!(is_too_short(0));
    assert!(is_too_short(3199));
    assert!(!is_too_short(3200));
    assert!(!is_too_short(48000));
}

#[test]
fn english_share() {
    assert!(mostly_english("hello world"));
    assert!(!mostly_english("你好世界"));
    assert!(!mostly_english(""));
    assert!(!mostly_english("123 !?"));
    assert!(mostly_english("abcdefg你好很"));
    assert!(!mostly_english("abcdef你好很"));
}

#[test]
fn refine_prompt_by_language() {
    let en = build_refine_prompt("hello world");
    assert_eq!(en, format!("{}hello world", refine_head_en()));
    assert!(en.starts_with("You are an input-method text polisher."));
    assert!(en.ends_with("Output only the final text.\n\nhello world"));
    let zh = build_refine_prompt("今天天气不错");
    assert_eq!(zh, format!("{}今天天气不错", refine_head_zh()));
    assert!(zh.starts_with("你是输入法润色器。"));
    assert!(zh.ends_with("6) 只输出最终文本。\n\n今天天气不错"));
}
