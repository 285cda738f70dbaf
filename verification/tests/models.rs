use mofa_macos_ime::config::{AsrModelChoice, LlmModelChoice};
use mofa_macos_ime::models::{
    choose_asr_model, choose_asr_model_auto, choose_llm_model, choose_llm_model_auto,
    first_present, hint_for_action, is_present, llm_preferred, ModelHint, ModelSlot, SlotAction,
};

fn files(names: &[&str]) -> Vec<String> {
    names.iter().map(|s| s.to_string()).collect()
}

fn all_llm() -> Vec<String> {
    files(&[
        "qwen2.5-7b-q4_k_m.gguf",
        "qwen2.5-3b-q4_k_m.gguf",
        "qwen2.5-1.5b-q4_k_m.gguf",
        "qwen2.5-0.5b-q4_k_m.gguf",
    ])
}

fn some(s: &str) -> Option<String> {
    Some(s.to_string())
}

#[test]
fn presence_is_by_exact_name() {
    let f = files(&["ggml-tiny.bin", "notes.txt"]);
    assert!(is_present(&f, "ggml-tiny.bin"));
    assert!(!is_present(&f, "ggml-tiny.bi"));
    assert!(!is_present(&f, "GGML-TINY.BIN"));
    assert!(!is_present(&Vec::new(), "ggml-tiny.bin"));
    assert_eq!(first_present(&f, &vec!["a", "notes.txt", "ggml-tiny.bin"]), some("notes.txt"));
    assert_eq!(first_present(&f, &vec!["a", "b"]), None);
    assert_eq!(first_present(&f, &Vec::new()), None);
}

#[test]
fn memory_tiers() {
    assert_eq!(llm_preferred(Some(4)), "qwen2.5-0.5b-q4_k_m.gguf");
    assert_eq!(llm_preferred(Some(8)), "qwen2.5-0.5b-q4_k_m.gguf");
    assert_eq!(llm_preferred(Some(9)), "qwen2.5-1.5b-q4_k_m.gguf");
    assert_eq!(llm_preferred(Some(16)), "qwen2.5-1.5b-q4_k_m.gguf");
    assert_eq!(llm_preferred(Some(17)), "qwen2.5-3b-q4_k_m.gguf");
    assert_eq!(llm_preferred(Some(128)), "qwen2.5-3b-q4_k_m.gguf");
    assert_eq!(llm_preferred(None), "qwen2.5-3b-q4_k_m.gguf");
}

#[test]
fn auto_llm_prefers_by_memory_then_fixed_order() {
    assert_eq!(choose_llm_model_auto(&all_llm(), Some(8)), some("qwen2.5-0.5b-q4_k_m.gguf"));
    assert_eq!(choose_llm_model_auto(&all_llm(), Some(16)), some("qwen2.5-1.5b-q4_k_m.gguf"));
    assert_eq!(choose_llm_model_auto(&all_llm(), Some(64)), some("qwen2.5-3b-q4_k_m.gguf"));
    assert_eq!(choose_llm_model_auto(&all_llm(), None), some("qwen2.5-3b-q4_k_m.gguf"));
    let f = files(&["qwen2.5-7b-q4_k_m.gguf", "qwen2.5-0.5b-q4_k_m.gguf"]);
    assert_eq!(choose_llm_model_auto(&f, Some(64)), some("qwen2.5-0.5b-q4_k_m.gguf"));
    let f = files(&["qwen2.5-7b-q4_k_m.gguf"]);
    assert_eq!(choose_llm_model_auto(&f, Some(4)), some("qwen2.5-7b-q4_k_m.gguf"));
    assert_eq!(choose_llm_model_auto(&Vec::new(), Some(4)), None);
}

#[test]
fn auto_asr_order() {
    let f = files(&["ggml-medium.bin", "ggml-tiny.bin", "ggml-base.bin", "ggml-small.bin"]);
    assert_eq!(choose_asr_model_auto(&f), some("ggml-small.bin"));
    let f = files(&["ggml-medium.bin", "ggml-tiny.bin", "ggml-base.bin"]);
    assert_eq!(choose_asr_model_auto(&f), some("ggml-base.bin"));
    let f = files(&["ggml-medium.bin", "ggml-tiny.bin"]);
    assert_eq!(choose_asr_model_auto(&f), some("ggml-tiny.bin"));
    let f = files(&["ggml-medium.bin"]);
    assert_eq!(choose_asr_model_auto(&f), some("ggml-medium.bin"));
    assert_eq!(choose_asr_model_auto(&files(&["ggml-large.bin"])), None);
}

#[test]
fn explicit_choice_is_taken_when_present() {
    assert_eq!(
        choose_llm_model(&all_llm(), LlmModelChoice::Qwen7, Some(8)),
        some("qwen2.5-7b-q4_k_m.gguf")
    );
    let f = files(&["ggml-medium.bin", "ggml-small.bin"]);
    assert_eq!(choose_asr_model(&f, AsrModelChoice::Medium), some("ggml-medium.bin"));
    assert_eq!(choose_asr_model(&f, AsrModelChoice::Auto), some("ggml-small.bin"));
}

#[test]
fn absent_explicit_choice_falls_back_to_auto() {
    let f = files(&["ggml-tiny.bin", "qwen2.5-1.5b-q4_k_m.gguf"]);
    assert_eq!(choose_asr_model(&f, AsrModelChoice::Small), some("ggml-tiny.bin"));
    assert_eq!(choose_asr_model(&f, AsrModelChoice::Small), choose_asr_model_auto(&f));
    assert_eq!(
        choose_llm_model(&f, LlmModelChoice::Qwen7, Some(64)),
        some("qwen2.5-1.5b-q4_k_m.gguf")
    );
    assert_eq!(
        choose_llm_model(&f, LlmModelChoice::Qwen7, Some(64)),
        choose_llm_model_auto(&f, Some(64))
    );
}

#[test]
fn auto_with_no_files_resolves_to_none_and_loads_nothing() {
    let none: Vec<String> = Vec::new();
    let desired_asr = choose_asr_model(&none, AsrModelChoice::Auto);
    let desired_llm = choose_llm_model(&none, LlmModelChoice::Auto, Some(16));
    assert_eq!(desired_asr, None);
    assert_eq!(desired_llm, None);
    let mut slot = ModelSlot::new();
    assert_eq!(slot.begin_refresh(desired_asr), SlotAction::Keep);
    assert_eq!(slot, ModelSlot::new());
    let mut loaded = ModelSlot { loaded_path: some("ggml-tiny.bin"), live: true };
    let action = loaded.begin_refresh(desired_llm);
    assert_eq!(action, SlotAction::Unload);
    assert_eq!(hint_for_action(&action), Some(ModelHint::NoneFound));
    assert_eq!(loaded, ModelSlot { loaded_path: None, live: false });
}

#[test]
fn slot_swaps_only_when_the_path_changes() {
    let mut slot = ModelSlot::new();
    let action = slot.begin_refresh(some("ggml-small.bin"));
    assert_eq!(action, SlotAction::Load { file: "ggml-small.bin".to_string() });
    assert_eq!(hint_for_action(&action), None);
    assert_eq!(slot, ModelSlot { loaded_path: some("ggml-small.bin"), live: false });
    assert_eq!(slot.end_load(true), ModelHint::Loaded);
    assert!(slot.live);
    assert_eq!(slot.begin_refresh(some("ggml-small.bin")), SlotAction::Keep);
    assert!(slot.live);
    let action = slot.begin_refresh(some("ggml-base.bin"));
    assert_eq!(action, SlotAction::Load { file: "ggml-base.bin".to_string() });
    assert!(!slot.live);
    assert_eq!(slot.end_load(false), ModelHint::LoadFailed);
    assert!(!slot.live);
    assert_eq!(slot.loaded_path, some("ggml-base.bin"));
    assert_eq!(slot.begin_refresh(some("ggml-base.bin")), SlotAction::Keep);
    assert!(slot.is_current(&some("ggml-base.bin")));
    assert!(!slot.is_current(&None));
}
