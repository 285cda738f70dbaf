use crate::config::{AsrModelChoice, LlmModelChoice};
use vstd::prelude::*;
use vstd::string::StringExecFns;

verus! {

/// The memory, in GiB, that the automatic choice assumes where the machine does not tell.
pub const ASSUMED_MEMORY_GB: u64 = 32;

/// The names of the files in the model directory, as contracts see them.
pub open spec fn spec_names(files: Seq<String>) -> Set<Seq<char>> {
    Set::new(|name: Seq<char>| exists|i: int| 0 <= i < files.len() && (#[trigger] files[i])@ == name)
}

/// The views of a list of string slices.
pub open spec fn spec_strs(names: Seq<&'static str>) -> Seq<Seq<char>> {
    names.map_values(|s: &'static str| s@)
}

/// The first of `candidates`, from index `i` on, that is among `present`.
pub open spec fn spec_first_present(
    candidates: Seq<Seq<char>>,
    present: Set<Seq<char>>,
    i: int,
) -> Option<Seq<char>>
    decreases candidates.len() - i,
{
    if i < 0 || i >= candidates.len() {
        None
    } else if present.contains(candidates[i]) {
        Some(candidates[i])
    } else {
        spec_first_present(candidates, present, i + 1)
    }
}

/// Whether a file of the given name is in the model directory.
pub fn is_present(files: &Vec<String>, name: &str) -> (r: bool)
    ensures
        r == spec_names(files@).contains(name@),
{
    let wanted = String::from_str(name);
    let mut i: usize = 0;
    while i < files.len()
        invariant
            i <= files.len(),
            wanted@ == name@,
            forall|j: int| 0 <= j < i ==> (#[trigger] files@[j])@ != name@,
        decreases files.len() - i,
    {
        if files[i] == wanted {
            return true;
        }
        i += 1;
    }
    false
}

/// The first candidate that is in the model directory.
pub fn first_present(files: &Vec<String>, candidates: &Vec<&'static str>) -> (r: Option<String>)
    ensures
        r is Some == spec_first_present(spec_strs(candidates@), spec_names(files@), 0) is Some,
        r is Some ==> r->0@ == spec_first_present(
            spec_strs(candidates@),
            spec_names(files@),
            0,
        )->0,
{
    let mut i: usize = 0;
    while i < candidates.len()
        invariant
            i <= candidates.len(),
            spec_first_present(spec_strs(candidates@), spec_names(files@), i as int)
                == spec_first_present(spec_strs(candidates@), spec_names(files@), 0),
        decreases candidates.len() - i,
    {
        assert(spec_strs(candidates@)[i as int] == candidates@[i as int]@);
        if is_present(files, candidates[i]) {
            return Some(String::from_str(candidates[i]));
        }
        i += 1;
    }
    None
}

/// The language model that suits a machine with so much memory: the smallest up to 8 GiB,
/// the next up to 16 GiB, the 3B model above.
pub open spec fn spec_llm_preferred(mem_gb: Option<u64>) -> Seq<char> {
    let gb = match mem_gb {
        Some(g) => g,
        None => ASSUMED_MEMORY_GB,
    };
    if gb <= 8 {
        "qwen2.5-0.5b-q4_k_m.gguf"@
    } else if gb <= 16 {
        "qwen2.5-1.5b-q4_k_m.gguf"@
    } else {
        "qwen2.5-3b-q4_k_m.gguf"@
    }
}

/// The file of the language model that suits the machine's memory.
pub fn llm_preferred(mem_gb: Option<u64>) -> (r: &'static str)
    ensures
        r@ == spec_llm_preferred(mem_gb),
{
    let gb = match mem_gb {
        Some(g) => g,
        None => ASSUMED_MEMORY_GB,
    };
    if gb <= 8 {
        "qwen2.5-0.5b-q4_k_m.gguf"
    } else if gb <= 16 {
        "qwen2.5-1.5b-q4_k_m.gguf"
    } else {
        "qwen2.5-3b-q4_k_m.gguf"
    }
}

/// The language models in the order in which the automatic choice looks for them: the one
/// that suits the memory first, then a fixed order.
pub open spec fn spec_llm_candidates(mem_gb: Option<u64>) -> Seq<Seq<char>> {
    seq![
        spec_llm_preferred(mem_gb),
        "qwen2.5-1.5b-q4_k_m.gguf"@,
        "qwen2.5-0.5b-q4_k_m.gguf"@,
        "qwen2.5-3b-q4_k_m.gguf"@,
        "qwen2.5-7b-q4_k_m.gguf"@,
    ]
}

/// The speech models in the order in which the automatic choice looks for them.
pub open spec fn spec_asr_candidates() -> Seq<Seq<char>> {
    seq!["ggml-small.bin"@, "ggml-base.bin"@, "ggml-tiny.bin"@, "ggml-medium.bin"@]
}

/// The language model that the automatic choice takes: the first of its candidates that is
/// on disk, none where none is.
pub open spec fn spec_choose_llm_auto(present: Set<Seq<char>>, mem_gb: Option<u64>) -> Option<
    Seq<char>,
> {
    spec_first_present(spec_llm_candidates(mem_gb), present, 0)
}

/// The speech model that the automatic choice takes.
pub open spec fn spec_choose_asr_auto(present: Set<Seq<char>>) -> Option<Seq<char>> {
    spec_first_present(spec_asr_candidates(), present, 0)
}

/// The language model to have loaded: the user's choice where its file is on disk, the
/// automatic choice otherwise.
pub open spec fn spec_choose_llm(
    present: Set<Seq<char>>,
    choice: LlmModelChoice,
    mem_gb: Option<u64>,
) -> Option<Seq<char>> {
    match choice.spec_file_name() {
        Some(f) => if present.contains(f) {
            Some(f)
        } else {
            spec_choose_llm_auto(present, mem_gb)
        },
        None => spec_choose_llm_auto(present, mem_gb),
    }
}

/// The speech model to have loaded: the user's choice where its file is on disk, the
/// automatic choice otherwise.
pub open spec fn spec_choose_asr(present: Set<Seq<char>>, choice: AsrModelChoice) -> Option<
    Seq<char>,
> {
    match choice.spec_file_name() {
        Some(f) => if present.contains(f) {
            Some(f)
        } else {
            spec_choose_asr_auto(present)
        },
        None => spec_choose_asr_auto(present),
    }
}

/// Picks a language model by the machine's memory from the files in the model directory.
pub fn choose_llm_model_auto(files: &Vec<String>, mem_gb: Option<u64>) -> (r: Option<String>)
    ensures
        r is Some == spec_choose_llm_auto(spec_names(files@), mem_gb) is Some,
        r is Some ==> r->0@ == spec_choose_llm_auto(spec_names(files@), mem_gb)->0,
{
    let candidates: Vec<&'static str> = vec![
        llm_preferred(mem_gb),
        "qwen2.5-1.5b-q4_k_m.gguf",
        "qwen2.5-0.5b-q4_k_m.gguf",
        "qwen2.5-3b-q4_k_m.gguf",
        "qwen2.5-7b-q4_k_m.gguf",
    ];
    assert(spec_strs(candidates@) =~= spec_llm_candidates(mem_gb));
    first_present(files, &candidates)
}

/// Picks the language model to have loaded.
pub fn choose_llm_model(files: &Vec<String>, choice: LlmModelChoice, mem_gb: Option<u64>) -> (r:
    Option<String>)
    ensures
        r is Some == spec_choose_llm(spec_names(files@), choice, mem_gb) is Some,
        r is Some ==> r->0@ == spec_choose_llm(spec_names(files@), choice, mem_gb)->0,
{
    match choice.file_name() {
        Some(f) => {
            if is_present(files, f) {
                return Some(String::from_str(f));
            }
        },
        None => {},
    }
    choose_llm_model_auto(files, mem_gb)
}

/// Picks a speech model from the files in the model directory.
pub fn choose_asr_model_auto(files: &Vec<String>) -> (r: Option<String>)
    ensures
        r is Some == spec_choose_asr_auto(spec_names(files@)) is Some,
        r is Some ==> r->0@ == spec_choose_asr_auto(spec_names(files@))->0,
{
    let candidates: Vec<&'static str> = vec![
        "ggml-small.bin",
        "ggml-base.bin",
        "ggml-tiny.bin",
        "ggml-medium.bin",
    ];
    assert(spec_strs(candidates@) =~= spec_asr_candidates());
    first_present(files, &candidates)
}

/// Picks the speech model to have loaded.
pub fn choose_asr_model(files: &Vec<String>, choice: AsrModelChoice) -> (r: Option<String>)
    ensures
        r is Some == spec_choose_asr(spec_names(files@), choice) is Some,
        r is Some ==> r->0@ == spec_choose_asr(spec_names(files@), choice)->0,
{
    match choice.file_name() {
        Some(f) => {
            if is_present(files, f) {
                return Some(String::from_str(f));
            }
        },
        None => {},
    }
    choose_asr_model_auto(files)
}

/// A choice whose file is missing counts as no choice: the automatic choice decides.
pub proof fn lemma_missing_choice_falls_back(
    present: Set<Seq<char>>,
    llm: LlmModelChoice,
    asr: AsrModelChoice,
    mem_gb: Option<u64>,
)
    ensures
        llm.spec_file_name() is Some && !present.contains(llm.spec_file_name()->0)
            ==> spec_choose_llm(present, llm, mem_gb) == spec_choose_llm_auto(present, mem_gb),
        asr.spec_file_name() is Some && !present.contains(asr.spec_file_name()->0)
            ==> spec_choose_asr(present, asr) == spec_choose_asr_auto(present),
{
}

/// What is chosen is on disk; and where nothing is on disk, nothing is chosen.
pub proof fn lemma_chosen_model_is_present(
    present: Set<Seq<char>>,
    llm: LlmModelChoice,
    asr: AsrModelChoice,
    mem_gb: Option<u64>,
)
    ensures
        spec_choose_llm(present, llm, mem_gb) is Some ==> present.contains(
            spec_choose_llm(present, llm, mem_gb)->0,
        ),
        spec_choose_asr(present, asr) is Some ==> present.contains(
            spec_choose_asr(present, asr)->0,
        ),
        present == Set::<Seq<char>>::empty() ==> spec_choose_llm(present, llm, mem_gb) is None
            && spec_choose_asr(present, asr) is None,
{
    lemma_first_present(spec_llm_candidates(mem_gb), present, 0);
    lemma_first_present(spec_asr_candidates(), present, 0);
}

/// What `spec_first_present` finds is a candidate that is present, and it finds one
/// whenever one of the candidates from `i` on is present.
pub proof fn lemma_first_present(candidates: Seq<Seq<char>>, present: Set<Seq<char>>, i: int)
    requires
        0 <= i,
    ensures
        spec_first_present(candidates, present, i) is Some ==> present.contains(
            spec_first_present(candidates, present, i)->0,
        ),
        spec_first_present(candidates, present, i) is None ==> forall|j: int|
            i <= j < candidates.len() ==> !present.contains(#[trigger] candidates[j]),
    decreases candidates.len() - i,
{
    if i < candidates.len() && !present.contains(candidates[i]) {
        lemma_first_present(candidates, present, i + 1);
    }
}

/// One of the two places for a loaded model: the file that the loaded session came from, or
/// was meant to, and whether a session is alive.
#[derive(Clone, Debug, PartialEq, Eq)]
pub struct ModelSlot {
    pub loaded_path: Option<String>,
    pub live: bool,
}

/// What is to be done with a slot.
#[derive(Clone, Debug, PartialEq, Eq)]
pub enum SlotAction {
    /// The right model is in place, or was tried already: nothing to do.
    Keep,
    /// No model is wanted: drop the session if there is one.
    Unload,
    /// Drop the session if there is one, then build a new one from `file`.
    Load { file: String },
}

/// What the manager tells the user about a slot that changed.
#[derive(Clone, Copy, Debug, PartialEq, Eq, Structural)]
pub enum ModelHint {
    Loaded,
    LoadFailed,
    NoneFound,
}

/// The view of an optional file name.
pub open spec fn spec_path(p: Option<String>) -> Option<Seq<char>> {
    match p {
        Some(s) => Some(s@),
        None => None,
    }
}

impl ModelSlot {
    /// An empty slot, as at startup.
    pub fn new() -> (r: ModelSlot)
        ensures
            r.loaded_path is None,
            !r.live,
    {
        ModelSlot { loaded_path: None, live: false }
    }

    /// Whether the wanted file is the one that the slot was last set to.
    pub open spec fn spec_is_current(self, desired: Option<String>) -> bool {
        spec_path(self.loaded_path) == spec_path(desired)
    }

    /// Whether the wanted file is the one that the slot was last set to. Two absent files
    /// are the same file.
    pub fn is_current(&self, desired: &Option<String>) -> (r: bool)
        ensures
            r == self.spec_is_current(*desired),
    {
        match (&self.loaded_path, desired) {
            (None, None) => true,
            (Some(a), Some(b)) => *a == *b,
            _ => false,
        }
    }

    /// Turns the slot to the wanted file. Where that is the file the slot was last set to,
    /// nothing changes. Otherwise the slot records the wanted file and holds no session any
    /// more: the old session goes before a new one is built.
    pub fn begin_refresh(&mut self, desired: Option<String>) -> (action: SlotAction)
        ensures
            old(self).spec_is_current(desired) ==> action is Keep && *final(self) == *old(self),
            !old(self).spec_is_current(desired) ==> {
                &&& spec_path(final(self).loaded_path) == spec_path(desired)
                &&& !final(self).live
                &&& match desired {
                    Some(f) => action matches SlotAction::Load { file } && file@ == f@,
                    None => action is Unload,
                }
            },
    {
        if self.is_current(&desired) {
            return SlotAction::Keep;
        }
        self.live = false;
        match desired {
            Some(f) => {
                self.loaded_path = Some(f.clone());
                SlotAction::Load { file: f }
            },
            None => {
                self.loaded_path = None;
                SlotAction::Unload
            },
        }
    }

    /// Records how the load went that `begin_refresh` asked for: the slot holds a session
    /// exactly if the load succeeded. A failed load is not tried again until another file
    /// is wanted.
    pub fn end_load(&mut self, loaded: bool) -> (hint: ModelHint)
        ensures
            final(self).live == loaded,
            final(self).loaded_path == old(self).loaded_path,
            hint == if loaded {
                ModelHint::Loaded
            } else {
                ModelHint::LoadFailed
            },
    {
        self.live = loaded;
        if loaded {
            ModelHint::Loaded
        } else {
            ModelHint::LoadFailed
        }
    }
}

/// The hint that goes with an action on a slot before any load is tried: none for `Keep`
/// and `Load`, "none found" for `Unload`.
pub fn hint_for_action(action: &SlotAction) -> (r: Option<ModelHint>)
    ensures
        r == match *action {
            SlotAction::Unload => Some(ModelHint::NoneFound),
            _ => None::<ModelHint>,
        },
{
    match action {
        SlotAction::Unload => Some(ModelHint::NoneFound),
        _ => None,
    }
}

} // verus!
