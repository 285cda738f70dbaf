use crate::hotkey::{parse_hotkey_chars, spec_parse_hotkey, HotkeySpec, HOTKEY_FN_CODE};
use crate::text::{
    chars_eq, chars_of, lemma_plain_is_fixed, lower, spec_is_plain, spec_lower, spec_split,
    spec_starts_with, spec_trim, split, strip_prefix, trim, views,
};
use vstd::prelude::*;

verus! {

/// What is delivered to the focused application: the transcript as recognised, or the
/// transcript after the language model has polished it.
#[derive(Clone, Copy, Debug, PartialEq, Eq, Structural)]
pub enum OutputMode {
    Llm,
    Asr,
}

impl OutputMode {
    /// The mode that a configuration value names, in any case and with blanks around it.
    pub open spec fn spec_from_token(s: Seq<char>) -> Option<OutputMode> {
        let t = spec_lower(spec_trim(s));
        if t == "llm"@ {
            Some(OutputMode::Llm)
        } else if t == "asr"@ {
            Some(OutputMode::Asr)
        } else {
            None
        }
    }

    /// Reads a mode from the characters of a configuration value.
    pub fn from_chars(s: &Vec<char>) -> (r: Option<OutputMode>)
        ensures
            r == Self::spec_from_token(s@),
    {
        let t = lower(&trim(s));
        if chars_eq(&t, "llm") {
            Some(OutputMode::Llm)
        } else if chars_eq(&t, "asr") {
            Some(OutputMode::Asr)
        } else {
            None
        }
    }

    /// Reads a mode from a configuration value.
    pub fn from_token(s: &str) -> (r: Option<OutputMode>)
        ensures
            r == Self::spec_from_token(s@),
    {
        Self::from_chars(&chars_of(s))
    }

    pub open spec fn spec_token(self) -> Seq<char> {
        match self {
            OutputMode::Llm => "llm"@,
            OutputMode::Asr => "asr"@,
        }
    }

    /// How the mode is written in the configuration file.
    pub fn token(self) -> (r: &'static str)
        ensures
            r@ == self.spec_token(),
    {
        match self {
            OutputMode::Llm => "llm",
            OutputMode::Asr => "asr",
        }
    }

    pub open spec fn spec_label(self) -> Seq<char> {
        match self {
            OutputMode::Llm => "LLM 润色"@,
            OutputMode::Asr => "ASR 原文"@,
        }
    }

    /// How the mode is shown to the user.
    pub fn label(self) -> (r: &'static str)
        ensures
            r@ == self.spec_label(),
    {
        match self {
            OutputMode::Llm => "LLM 润色",
            OutputMode::Asr => "ASR 原文",
        }
    }
}

/// The language model that the user selected, or `Auto` to let the machine's memory decide.
#[derive(Clone, Copy, Debug, PartialEq, Eq, Structural)]
pub enum LlmModelChoice {
    Auto,
    Qwen05,
    Qwen15,
    Qwen3,
    Qwen7,
}

impl LlmModelChoice {
    /// The choice that a configuration value names: `auto`, a model's file name or its short
    /// name, in any case and with blanks around it.
    pub open spec fn spec_from_token(s: Seq<char>) -> Option<LlmModelChoice> {
        let t = spec_lower(spec_trim(s));
        if t == "auto"@ {
            Some(LlmModelChoice::Auto)
        } else if t == "qwen2.5-0.5b-q4_k_m.gguf"@ || t == "qwen0.5"@ {
            Some(LlmModelChoice::Qwen05)
        } else if t == "qwen2.5-1.5b-q4_k_m.gguf"@ || t == "qwen1.5"@ {
            Some(LlmModelChoice::Qwen15)
        } else if t == "qwen2.5-3b-q4_k_m.gguf"@ || t == "qwen3"@ {
            Some(LlmModelChoice::Qwen3)
        } else if t == "qwen2.5-7b-q4_k_m.gguf"@ || t == "qwen7"@ {
            Some(LlmModelChoice::Qwen7)
        } else {
            None
        }
    }

    /// Reads a choice from the characters of a configuration value.
    pub fn from_chars(s: &Vec<char>) -> (r: Option<LlmModelChoice>)
        ensures
            r == Self::spec_from_token(s@),
    {
        let t = lower(&trim(s));
        if chars_eq(&t, "auto") {
            Some(LlmModelChoice::Auto)
        } else if chars_eq(&t, "qwen2.5-0.5b-q4_k_m.gguf") || chars_eq(&t, "qwen0.5") {
            Some(LlmModelChoice::Qwen05)
        } else if chars_eq(&t, "qwen2.5-1.5b-q4_k_m.gguf") || chars_eq(&t, "qwen1.5") {
            Some(LlmModelChoice::Qwen15)
        } else if chars_eq(&t, "qwen2.5-3b-q4_k_m.gguf") || chars_eq(&t, "qwen3") {
            Some(LlmModelChoice::Qwen3)
        } else if chars_eq(&t, "qwen2.5-7b-q4_k_m.gguf") || chars_eq(&t, "qwen7") {
            Some(LlmModelChoice::Qwen7)
        } else {
            None
        }
    }

    /// Reads a choice from a configuration value.
    pub fn from_token(s: &str) -> (r: Option<LlmModelChoice>)
        ensures
            r == Self::spec_from_token(s@),
    {
        Self::from_chars(&chars_of(s))
    }

    pub open spec fn spec_token(self) -> Seq<char> {
        match self {
            LlmModelChoice::Auto => "auto"@,
            LlmModelChoice::Qwen05 => "qwen2.5-0.5b-q4_k_m.gguf"@,
            LlmModelChoice::Qwen15 => "qwen2.5-1.5b-q4_k_m.gguf"@,
            LlmModelChoice::Qwen3 => "qwen2.5-3b-q4_k_m.gguf"@,
            LlmModelChoice::Qwen7 => "qwen2.5-7b-q4_k_m.gguf"@,
        }
    }

    /// How the choice is written in the configuration file.
    pub fn token(self) -> (r: &'static str)
        ensures
            r@ == self.spec_token(),
    {
        match self {
            LlmModelChoice::Auto => "auto",
            LlmModelChoice::Qwen05 => "qwen2.5-0.5b-q4_k_m.gguf",
            LlmModelChoice::Qwen15 => "qwen2.5-1.5b-q4_k_m.gguf",
            LlmModelChoice::Qwen3 => "qwen2.5-3b-q4_k_m.gguf",
            LlmModelChoice::Qwen7 => "qwen2.5-7b-q4_k_m.gguf",
        }
    }

    /// The file that holds the chosen model; `Auto` names none.
    pub open spec fn spec_file_name(self) -> Option<Seq<char>> {
        match self {
            LlmModelChoice::Auto => None,
            _ => Some(self.spec_token()),
        }
    }

    /// The file that holds the chosen model, if a model was chosen.
    pub fn file_name(self) -> (r: Option<&'static str>)
        ensures
            r is Some == self.spec_file_name() is Some,
            r is Some ==> r->0@ == self.spec_file_name()->0,
    {
        match self {
            LlmModelChoice::Auto => None,
            _ => Some(self.token()),
        }
    }

    pub open spec fn spec_label(self) -> Seq<char> {
        match self {
            LlmModelChoice::Auto => "自动"@,
            LlmModelChoice::Qwen05 => "Qwen2.5 0.5B"@,
            LlmModelChoice::Qwen15 => "Qwen2.5 1.5B"@,
            LlmModelChoice::Qwen3 => "Qwen2.5 3B"@,
            LlmModelChoice::Qwen7 => "Qwen2.5 7B"@,
        }
    }

    /// How the choice is shown to the user.
    pub fn label(self) -> (r: &'static str)
        ensures
            r@ == self.spec_label(),
    {
        match self {
            LlmModelChoice::Auto => "自动",
            LlmModelChoice::Qwen05 => "Qwen2.5 0.5B",
            LlmModelChoice::Qwen15 => "Qwen2.5 1.5B",
            LlmModelChoice::Qwen3 => "Qwen2.5 3B",
            LlmModelChoice::Qwen7 => "Qwen2.5 7B",
        }
    }
}

/// The speech model that the user selected, or `Auto` to take the best one on disk.
#[derive(Clone, Copy, Debug, PartialEq, Eq, Structural)]
pub enum AsrModelChoice {
    Auto,
    Tiny,
    Base,
    Small,
    Medium,
}

impl AsrModelChoice {
    /// The choice that a configuration value names: `auto`, a model's file name or its short
    /// name, in any case and with blanks around it.
    pub open spec fn spec_from_token(s: Seq<char>) -> Option<AsrModelChoice> {
        let t = spec_lower(spec_trim(s));
        if t == "auto"@ {
            Some(AsrModelChoice::Auto)
        } else if t == "ggml-tiny.bin"@ || t == "tiny"@ {
            Some(AsrModelChoice::Tiny)
        } else if t == "ggml-base.bin"@ || t == "base"@ {
            Some(AsrModelChoice::Base)
        } else if t == "ggml-small.bin"@ || t == "small"@ {
            Some(AsrModelChoice::Small)
        } else if t == "ggml-medium.bin"@ || t == "medium"@ {
            Some(AsrModelChoice::Medium)
        } else {
            None
        }
    }

    /// Reads a choice from the characters of a configuration value.
    pub fn from_chars(s: &Vec<char>) -> (r: Option<AsrModelChoice>)
        ensures
            r == Self::spec_from_token(s@),
    {
        let t = lower(&trim(s));
        if chars_eq(&t, "auto") {
            Some(AsrModelChoice::Auto)
        } else if chars_eq(&t, "ggml-tiny.bin") || chars_eq(&t, "tiny") {
            Some(AsrModelChoice::Tiny)
        } else if chars_eq(&t, "ggml-base.bin") || chars_eq(&t, "base") {
            Some(AsrModelChoice::Base)
        } else if chars_eq(&t, "ggml-small.bin") || chars_eq(&t, "small") {
            Some(AsrModelChoice::Small)
        } else if chars_eq(&t, "ggml-medium.bin") || chars_eq(&t, "medium") {
            Some(AsrModelChoice::Medium)
        } else {
            None
        }
    }

    /// Reads a choice from a configuration value.
    pub fn from_token(s: &str) -> (r: Option<AsrModelChoice>)
        ensures
            r == Self::spec_from_token(s@),
    {
        Self::from_chars(&chars_of(s))
    }

    pub open spec fn spec_token(self) -> Seq<char> {
        match self {
            AsrModelChoice::Auto => "auto"@,
            AsrModelChoice::Tiny => "ggml-tiny.bin"@,
            AsrModelChoice::Base => "ggml-base.bin"@,
            AsrModelChoice::Small => "ggml-small.bin"@,
            AsrModelChoice::Medium => "ggml-medium.bin"@,
        }
    }

    /// How the choice is written in the configuration file.
    pub fn token(self) -> (r: &'static str)
        ensures
            r@ == self.spec_token(),
    {
        match self {
            AsrModelChoice::Auto => "auto",
            AsrModelChoice::Tiny => "ggml-tiny.bin",
            AsrModelChoice::Base => "ggml-base.bin",
            AsrModelChoice::Small => "ggml-small.bin",
            AsrModelChoice::Medium => "ggml-medium.bin",
        }
    }

    /// The file that holds the chosen model; `Auto` names none.
    pub open spec fn spec_file_name(self) -> Option<Seq<char>> {
        match self {
            AsrModelChoice::Auto => None,
            _ => Some(self.spec_token()),
        }
    }

    /// The file that holds the chosen model, if a model was chosen.
    pub fn file_name(self) -> (r: Option<&'static str>)
        ensures
            r is Some == self.spec_file_name() is Some,
            r is Some ==> r->0@ == self.spec_file_name()->0,
    {
        match self {
            AsrModelChoice::Auto => None,
            _ => Some(self.token()),
        }
    }

    pub open spec fn spec_label(self) -> Seq<char> {
        match self {
            AsrModelChoice::Auto => "自动"@,
            AsrModelChoice::Tiny => "Whisper Tiny"@,
            AsrModelChoice::Base => "Whisper Base"@,
            AsrModelChoice::Small => "Whisper Small"@,
            AsrModelChoice::Medium => "Whisper Medium"@,
        }
    }

    /// How the choice is shown to the user.
    pub fn label(self) -> (r: &'static str)
        ensures
            r@ == self.spec_label(),
    {
        match self {
            AsrModelChoice::Auto => "自动",
            AsrModelChoice::Tiny => "Whisper Tiny",
            AsrModelChoice::Base => "Whisper Base",
            AsrModelChoice::Small => "Whisper Small",
            AsrModelChoice::Medium => "Whisper Medium",
        }
    }
}

/// One snapshot of the user's settings.
#[derive(Clone, Copy, Debug, PartialEq, Eq, Structural)]
pub struct AppConfig {
    pub hotkey: HotkeySpec,
    pub output_mode: OutputMode,
    pub llm_model: LlmModelChoice,
    pub asr_model: AsrModelChoice,
    pub show_floating_orb: bool,
}

impl AppConfig {
    /// The settings of a fresh installation: the Fn key, refined output, models chosen
    /// automatically, the orb shown.
    pub open spec fn spec_default() -> AppConfig {
        AppConfig {
            hotkey: HotkeySpec { keycode: HOTKEY_FN_CODE, modifiers: 0 },
            output_mode: OutputMode::Llm,
            llm_model: LlmModelChoice::Auto,
            asr_model: AsrModelChoice::Auto,
            show_floating_orb: true,
        }
    }
}

impl Default for AppConfig {
    fn default() -> (r: AppConfig)
        ensures
            r == AppConfig::spec_default(),
    {
        AppConfig {
            hotkey: HotkeySpec::fn_key(),
            output_mode: OutputMode::Llm,
            llm_model: LlmModelChoice::Auto,
            asr_model: AsrModelChoice::Auto,
            show_floating_orb: true,
        }
    }
}

/// What follows the key `key` on a line that begins with it.
pub open spec fn spec_value_of(line: Seq<char>, key: Seq<char>) -> Seq<char> {
    line.subrange(key.len() as int, line.len() as int)
}

/// The settings after one line of the configuration file. A blank line or one that begins
/// with `#` changes nothing. A line `key=value` sets the field that `key` names, if the
/// value is one that the field accepts; the orb is shown exactly when its value reads `true`.
/// Any other line changes nothing.
pub open spec fn spec_apply_line(cfg: AppConfig, raw: Seq<char>) -> AppConfig {
    let line = spec_trim(raw);
    if line.len() == 0 || line[0] == '#' {
        cfg
    } else if spec_starts_with(line, "hotkey="@) {
        match spec_parse_hotkey(spec_value_of(line, "hotkey="@)) {
            Some(h) => AppConfig { hotkey: h, ..cfg },
            None => cfg,
        }
    } else if spec_starts_with(line, "output_mode="@) {
        match OutputMode::spec_from_token(spec_value_of(line, "output_mode="@)) {
            Some(m) => AppConfig { output_mode: m, ..cfg },
            None => cfg,
        }
    } else if spec_starts_with(line, "llm_model="@) {
        match LlmModelChoice::spec_from_token(spec_value_of(line, "llm_model="@)) {
            Some(c) => AppConfig { llm_model: c, ..cfg },
            None => cfg,
        }
    } else if spec_starts_with(line, "asr_model="@) {
        match AsrModelChoice::spec_from_token(spec_value_of(line, "asr_model="@)) {
            Some(c) => AppConfig { asr_model: c, ..cfg },
            None => cfg,
        }
    } else if spec_starts_with(line, "show_floating_orb="@) {
        AppConfig {
            show_floating_orb: spec_lower(spec_trim(spec_value_of(line, "show_floating_orb="@)))
                == "true"@,
            ..cfg
        }
    } else {
        cfg
    }
}

/// The settings after the lines from index `i` on, applied in order to `cfg`.
pub open spec fn spec_apply_lines(lines: Seq<Seq<char>>, i: int, cfg: AppConfig) -> AppConfig
    decreases lines.len() - i,
{
    if i < 0 || i >= lines.len() {
        cfg
    } else {
        spec_apply_lines(lines, i + 1, spec_apply_line(cfg, lines[i]))
    }
}

/// The settings that a configuration file holds: the defaults, changed by each of its lines
/// in turn, so that of two lines for one key the later wins.
pub open spec fn spec_parse_config(content: Seq<char>) -> AppConfig {
    spec_apply_lines(spec_split(content, '\n'), 0, AppConfig::spec_default())
}

/// Applies one line of the configuration file to `cfg`.
pub fn apply_config_line(cfg: AppConfig, raw: &Vec<char>) -> (r: AppConfig)
    ensures
        r == spec_apply_line(cfg, raw@),
{
    let line = trim(raw);
    if line.len() == 0 || line[0] == '#' {
        return cfg;
    }
    let mut out = cfg;
    match strip_prefix(&line, "hotkey=") {
        Some(v) => {
            match parse_hotkey_chars(&v) {
                Some(h) => {
                    out.hotkey = h;
                },
                None => {},
            }
            return out;
        },
        None => {},
    }
    match strip_prefix(&line, "output_mode=") {
        Some(v) => {
            match OutputMode::from_chars(&v) {
                Some(m) => {
                    out.output_mode = m;
                },
                None => {},
            }
            return out;
        },
        None => {},
    }
    match strip_prefix(&line, "llm_model=") {
        Some(v) => {
            match LlmModelChoice::from_chars(&v) {
                Some(c) => {
                    out.llm_model = c;
                },
                None => {},
            }
            return out;
        },
        None => {},
    }
    match strip_prefix(&line, "asr_model=") {
        Some(v) => {
            match AsrModelChoice::from_chars(&v) {
                Some(c) => {
                    out.asr_model = c;
                },
                None => {},
            }
            return out;
        },
        None => {},
    }
    match strip_prefix(&line, "show_floating_orb=") {
        Some(v) => {
            out.show_floating_orb = chars_eq(&lower(&trim(&v)), "true");
            return out;
        },
        None => {},
    }
    out
}

/// Reads the settings from the text of the configuration file. Nothing in the text is an
/// error: what cannot be read leaves its field as it was.
pub fn parse_app_config(content: &str) -> (r: AppConfig)
    ensures
        r == spec_parse_config(content@),
{
    let lines = split(&chars_of(content), '\n');
    let mut cfg = AppConfig::default();
    let mut i: usize = 0;
    while i < lines.len()
        invariant
            i <= lines.len(),
            spec_apply_lines(views(lines@), i as int, cfg) == spec_apply_lines(
                views(lines@),
                0,
                AppConfig::spec_default(),
            ),
        decreases lines.len() - i,
    {
        assert(views(lines@)[i as int] == lines@[i as int]@);
        cfg = apply_config_line(cfg, &lines[i]);
        i += 1;
    }
    cfg
}

/// Whether the floating orb is to be shown.
pub struct OrbVisibility {
    pub visible: bool,
}

impl OrbVisibility {
    /// The orb is shown until a setting says otherwise.
    pub fn new() -> (r: OrbVisibility)
        ensures
            r.visible,
    {
        OrbVisibility { visible: true }
    }
}

/// Records whether the orb is to be shown.
pub fn set_orb_visible(state: &mut OrbVisibility, visible: bool)
    ensures
        final(state).visible == visible,
{
    state.visible = visible;
}

/// Whether the orb is to be shown, as last recorded.
pub fn is_orb_visible(state: &OrbVisibility) -> (r: bool)
    ensures
        r == state.visible,
{
    state.visible
}

/// Every output mode is read back from its own token.
pub proof fn lemma_output_mode_round_trip(m: OutputMode)
    ensures
        OutputMode::spec_from_token(m.spec_token()) == Some(m),
{
    reveal_strlit("llm");
    reveal_strlit("asr");
    assert(spec_is_plain(m.spec_token()));
    lemma_plain_is_fixed(m.spec_token());
    assert("llm"@ != "asr"@) by {
        assert("llm"@[0] != "asr"@[0]);
    }
}

/// Every choice of a speech model is read back from its own token.
pub proof fn lemma_asr_choice_round_trip(c: AsrModelChoice)
    ensures
        AsrModelChoice::spec_from_token(c.spec_token()) == Some(c),
{
    reveal_strlit("auto");
    reveal_strlit("ggml-tiny.bin");
    reveal_strlit("ggml-base.bin");
    reveal_strlit("ggml-small.bin");
    reveal_strlit("ggml-medium.bin");
    reveal_strlit("tiny");
    reveal_strlit("base");
    reveal_strlit("small");
    reveal_strlit("medium");
    let t = c.spec_token();
    assert(spec_is_plain(t));
    lemma_plain_is_fixed(t);
    assert("ggml-tiny.bin"@[5] != "ggml-base.bin"@[5]);
    assert("ggml-small.bin"@[5] != "ggml-medium.bin"@[5]);
}

/// Every choice of a language model is read back from its own token.
pub proof fn lemma_llm_choice_round_trip(c: LlmModelChoice)
    ensures
        LlmModelChoice::spec_from_token(c.spec_token()) == Some(c),
{
    reveal_strlit("auto");
    reveal_strlit("qwen2.5-0.5b-q4_k_m.gguf");
    reveal_strlit("qwen2.5-1.5b-q4_k_m.gguf");
    reveal_strlit("qwen2.5-3b-q4_k_m.gguf");
    reveal_strlit("qwen2.5-7b-q4_k_m.gguf");
    reveal_strlit("qwen0.5");
    reveal_strlit("qwen1.5");
    reveal_strlit("qwen3");
    reveal_strlit("qwen7");
    let t = c.spec_token();
    assert(spec_is_plain(t));
    lemma_plain_is_fixed(t);
    assert("qwen2.5-0.5b-q4_k_m.gguf"@[8] != "qwen2.5-1.5b-q4_k_m.gguf"@[8]);
    assert("qwen2.5-3b-q4_k_m.gguf"@[8] != "qwen2.5-7b-q4_k_m.gguf"@[8]);
}

/// A file without lines that set anything holds the default settings.
pub proof fn lemma_empty_config_is_default()
    ensures
        spec_parse_config(Seq::<char>::empty()) == AppConfig::spec_default(),
{
    let lines = spec_split(Seq::<char>::empty(), '\n');
    assert(lines =~= seq![Seq::<char>::empty()]);
    assert(spec_trim(lines[0]) =~= Seq::<char>::empty());
    assert(spec_apply_lines(lines, 1, AppConfig::spec_default()) == AppConfig::spec_default());
}

} // verus!
