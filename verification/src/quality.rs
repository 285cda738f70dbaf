use crate::text::{
    chars_of, contains, lemma_skip_ws, lemma_skip_ws_back, lemma_trim_empty_iff_blank, lower,
    is_whitespace, skip_ws, skip_ws_back, spec_contains, spec_is_blank, spec_is_whitespace,
    spec_lower, spec_trim, string_of, trim,
};
use vstd::prelude::*;

verus! {

/// Fewest samples, at 16 kHz, that a recording must hold to be transcribed: a fifth of a second.
pub const MIN_RECORDING_SAMPLES: usize = 3200;

/// Whether a recording of `sample_count` samples at 16 kHz is too short to transcribe.
pub fn is_too_short(sample_count: usize) -> (r: bool)
    ensures
        r == (sample_count < MIN_RECORDING_SAMPLES),
{
    sample_count < MIN_RECORDING_SAMPLES
}

/// `s` with every maximal run of whitespace replaced by one space.
pub open spec fn spec_collapse(s: Seq<char>) -> Seq<char>
    decreases s.len(),
{
    if s.len() == 0 {
        s
    } else {
        let init = spec_collapse(s.drop_last());
        let c = s.last();
        if !spec_is_whitespace(c) {
            init.push(c)
        } else if s.len() >= 2 && spec_is_whitespace(s[s.len() - 2]) {
            init
        } else {
            init.push(' ')
        }
    }
}

/// The normal form of a transcript: trimmed, and every run of whitespace inside it
/// collapsed to one space.
pub open spec fn spec_normalize(s: Seq<char>) -> Seq<char> {
    spec_collapse(spec_trim(s))
}

/// Replaces every run of whitespace by one space.
fn collapse(v: &Vec<char>) -> (r: Vec<char>)
    ensures
        r@ == spec_collapse(v@),
{
    let mut out: Vec<char> = Vec::new();
    let mut prev_space = false;
    let mut i: usize = 0;
    assert(v@.take(0) =~= Seq::<char>::empty());
    while i < v.len()
        invariant
            i <= v.len(),
            out@ == spec_collapse(v@.take(i as int)),
            prev_space == (i > 0 && spec_is_whitespace(v@[i - 1])),
        decreases v.len() - i,
    {
        let c = v[i];
        assert(v@.take(i + 1).drop_last() =~= v@.take(i as int));
        if is_whitespace(c) {
            if !prev_space {
                out.push(' ');
            }
            prev_space = true;
        } else {
            out.push(c);
            prev_space = false;
        }
        i += 1;
    }
    assert(v@.take(v.len() as int) =~= v@);
    out
}

/// Brings a transcript into normal form: no whitespace at either end, and one space
/// wherever the text had a run of spaces, tabs or line breaks.
pub fn normalize_transcript(text: &str) -> (r: String)
    ensures
        r@ == spec_normalize(text@),
{
    let chars = chars_of(text);
    let trimmed = trim(&chars);
    let out = collapse(&trimmed);
    string_of(&out)
}

/// Collapsing keeps the first character of a text that does not begin with whitespace, and
/// ends with the text's last character where that is not whitespace.
pub proof fn lemma_collapse_ends(s: Seq<char>)
    requires
        s.len() > 0,
    ensures
        spec_collapse(s).len() > 0,
        !spec_is_whitespace(s[0]) ==> spec_collapse(s)[0] == s[0],
        spec_is_whitespace(s[0]) ==> spec_collapse(s)[0] == ' ',
        !spec_is_whitespace(s.last()) ==> spec_collapse(s).last() == s.last(),
    decreases s.len(),
{
    let init = spec_collapse(s.drop_last());
    if s.len() > 1 {
        lemma_collapse_ends(s.drop_last());
        assert(s.drop_last()[0] == s[0]);
        assert(init.len() > 0);
    } else {
        assert(init =~= Seq::<char>::empty());
        assert(s.last() == s[0]);
    }
}

/// A normalized transcript has no whitespace at its ends: trimming it again changes nothing.
pub proof fn lemma_normalize_is_trimmed(s: Seq<char>)
    ensures
        spec_trim(spec_normalize(s)) == spec_normalize(s),
{
    let t = spec_trim(s);
    let a = skip_ws(s, 0);
    lemma_skip_ws(s, 0);
    lemma_skip_ws_back(s, a, s.len() as int);
    let n = spec_normalize(s);
    if t.len() > 0 {
        lemma_collapse_ends(t);
        assert(!spec_is_whitespace(n[0]));
        assert(!spec_is_whitespace(n.last()));
        assert(skip_ws(n, 0) == 0);
        assert(skip_ws_back(n, 0, n.len() as int) == n.len());
        assert(spec_trim(n) =~= n);
    } else {
        assert(n =~= Seq::<char>::empty());
        assert(spec_trim(n) =~= n);
    }
}

/// In a collapsed text the only whitespace is the space, and no two spaces are adjacent.
pub proof fn lemma_collapse_single_spaces(s: Seq<char>)
    ensures
        forall|i: int|
            0 <= i < spec_collapse(s).len() && spec_is_whitespace(#[trigger] spec_collapse(s)[i])
                ==> spec_collapse(s)[i] == ' ',
        forall|i: int|
            0 <= i && i + 1 < spec_collapse(s).len() && spec_collapse(s)[i] == ' '
                ==> #[trigger] spec_collapse(s)[i + 1] != ' ',
        s.len() > 0 ==> spec_collapse(s).len() > 0 && (spec_collapse(s).last() == ' '
            <==> spec_is_whitespace(s.last())),
    decreases s.len(),
{
    if s.len() > 0 {
        lemma_collapse_single_spaces(s.drop_last());
        let init = spec_collapse(s.drop_last());
        let r = spec_collapse(s);
        if s.len() >= 2 {
            assert(s.drop_last().last() == s[s.len() - 2]);
        }
        assert forall|i: int| 0 <= i && i + 1 < r.len() && r[i] == ' ' implies #[trigger] r[i + 1]
            != ' ' by {
            if i + 1 < init.len() {
                assert(init[i + 1] != ' ');
            }
        }
    }
}

/// Normalizing a normalized transcript changes nothing.
pub proof fn lemma_normalize_idempotent(s: Seq<char>)
    ensures
        spec_normalize(spec_normalize(s)) == spec_normalize(s),
{
    let n = spec_normalize(s);
    lemma_normalize_is_trimmed(s);
    lemma_collapse_single_spaces(spec_trim(s));
    lemma_collapse_fixed(n);
}

/// Collapsing changes nothing in a text whose only whitespace is single spaces.
pub proof fn lemma_collapse_fixed(n: Seq<char>)
    requires
        forall|i: int| 0 <= i < n.len() && spec_is_whitespace(#[trigger] n[i]) ==> n[i] == ' ',
        forall|i: int| 0 <= i && i + 1 < n.len() && n[i] == ' ' ==> #[trigger] n[i + 1] != ' ',
    ensures
        spec_collapse(n) == n,
    decreases n.len(),
{
    if n.len() > 0 {
        let d = n.drop_last();
        assert forall|i: int| 0 <= i && i + 1 < d.len() && d[i] == ' ' implies #[trigger] d[i + 1]
            != ' ' by {
            assert(n[i + 1] != ' ');
        }
        lemma_collapse_fixed(d);
        if spec_is_whitespace(n.last()) && n.len() >= 2 {
            assert(n[n.len() - 2 + 1] == ' ');
        }
        assert(spec_collapse(n) =~= n);
    } else {
        assert(spec_collapse(n) =~= n);
    }
}

/// The punctuation that counts for nothing when a transcript is weighed: the common
/// Chinese and Latin marks, brackets and quotes.
pub open spec fn spec_is_filler_punct(c: char) -> bool {
    ||| c == '，'
    ||| c == '。'
    ||| c == '！'
    ||| c == '？'
    ||| c == '；'
    ||| c == '：'
    ||| c == '、'
    ||| c == '（'
    ||| c == '）'
    ||| c == '【'
    ||| c == '】'
    ||| c == '.'
    ||| c == ','
    ||| c == '!'
    ||| c == '?'
    ||| c == ';'
    ||| c == ':'
    ||| c == '('
    ||| c == ')'
    ||| c == '['
    ||| c == ']'
    ||| c == '"'
    ||| c == '\''
    ||| c == '“'
    ||| c == '”'
    ||| c == '…'
}

/// Whether `c` is one of the punctuation marks that the filter ignores.
pub fn is_filler_punct(c: char) -> (r: bool)
    ensures
        r == spec_is_filler_punct(c),
{
    c == '，' || c == '。' || c == '！' || c == '？' || c == '；' || c == '：' || c == '、' || c
        == '（' || c == '）' || c == '【' || c == '】' || c == '.' || c == ',' || c == '!' || c
        == '?' || c == ';' || c == ':' || c == '(' || c == ')' || c == '[' || c == ']' || c == '"'
        || c == '\'' || c == '“' || c == '”' || c == '…'
}

/// Whether a character carries content: it is neither whitespace nor ignored punctuation.
pub open spec fn spec_is_content(c: char) -> bool {
    !spec_is_whitespace(c) && !spec_is_filler_punct(c)
}

/// The content characters of `s`, in order.
pub open spec fn spec_content(s: Seq<char>) -> Seq<char>
    decreases s.len(),
{
    if s.len() == 0 {
        s
    } else if spec_is_content(s.last()) {
        spec_content(s.drop_last()).push(s.last())
    } else {
        spec_content(s.drop_last())
    }
}

/// The compact form of a text: its content characters, ASCII letters in lower case.
pub open spec fn spec_compact(s: Seq<char>) -> Seq<char> {
    spec_lower(spec_content(s))
}

/// The compact form of `v`.
fn compact_chars(v: &Vec<char>) -> (r: Vec<char>)
    ensures
        r@ == spec_compact(v@),
{
    let mut out: Vec<char> = Vec::new();
    let mut i: usize = 0;
    assert(v@.take(0) =~= Seq::<char>::empty());
    while i < v.len()
        invariant
            i <= v.len(),
            out@ == spec_content(v@.take(i as int)),
        decreases v.len() - i,
    {
        let c = v[i];
        assert(v@.take(i + 1).drop_last() =~= v@.take(i as int));
        if !is_whitespace(c) && !is_filler_punct(c) {
            out.push(c);
        }
        i += 1;
    }
    assert(v@.take(v.len() as int) =~= v@);
    lower(&out)
}

/// Strips whitespace and the ignored punctuation from `text` and lower-cases its ASCII
/// letters, so that texts which differ only in those compare equal.
pub fn compact_for_filter(text: &str) -> (r: String)
    ensures
        r@ == spec_compact(text@),
{
    let chars = chars_of(text);
    let out = compact_chars(&chars);
    string_of(&out)
}

/// How many phrases the template filter knows.
pub const NOISE_PATTERN_COUNT: usize = 11;

/// The phrases, in compact form, by which a speech or language model announces that it was
/// given nothing to work on.
pub open spec fn spec_noise_patterns() -> Seq<Seq<char>> {
    seq![
        "好的请提供需要转写和润色的语音内容"@,
        "请提供需要转写和润色的语音内容"@,
        "请提供需要转写的语音内容"@,
        "请提供语音内容"@,
        "未检测到有效语音"@,
        "未识别到有效语音"@,
        "未识别到语音"@,
        "pleaseprovidevoiceinput"@,
        "pleaseprovidetheaudiocontent"@,
        "pleaseprovidevoicetotranscribe"@,
        "novalidaudio"@,
    ]
}

/// The `k`-th phrase of the template filter.
pub fn noise_pattern(k: usize) -> (r: &'static str)
    requires
        k < NOISE_PATTERN_COUNT,
    ensures
        r@ == spec_noise_patterns()[k as int],
{
    match k {
        0 => "好的请提供需要转写和润色的语音内容",
        1 => "请提供需要转写和润色的语音内容",
        2 => "请提供需要转写的语音内容",
        3 => "请提供语音内容",
        4 => "未检测到有效语音",
        5 => "未识别到有效语音",
        6 => "未识别到语音",
        7 => "pleaseprovidevoiceinput",
        8 => "pleaseprovidetheaudiocontent",
        9 => "pleaseprovidevoicetotranscribe",
        _ => "novalidaudio",
    }
}

/// Whether a text is template noise: nothing is left of it in compact form, or its compact
/// form holds one of the known phrases.
pub open spec fn spec_is_template_noise(s: Seq<char>) -> bool {
    let c = spec_compact(s);
    c.len() == 0 || exists|k: int|
        0 <= k < spec_noise_patterns().len() && spec_contains(c, #[trigger] spec_noise_patterns()[k])
}

/// Whether the compact form `c` holds one of the known phrases.
fn holds_noise_pattern(c: &Vec<char>) -> (r: bool)
    ensures
        r == exists|k: int|
            0 <= k < spec_noise_patterns().len() && spec_contains(
                c@,
                #[trigger] spec_noise_patterns()[k],
            ),
{
    let mut k: usize = 0;
    while k < NOISE_PATTERN_COUNT
        invariant
            k <= NOISE_PATTERN_COUNT,
            spec_noise_patterns().len() == NOISE_PATTERN_COUNT,
            forall|j: int| 0 <= j < k ==> !spec_contains(c@, #[trigger] spec_noise_patterns()[j]),
        decreases NOISE_PATTERN_COUNT - k,
    {
        let p = chars_of(noise_pattern(k));
        if contains(c, &p) {
            return true;
        }
        k += 1;
    }
    false
}

/// Whether `text` is one of the stock answers that a model gives when it heard nothing, or
/// holds no content at all.
pub fn is_template_noise_text(text: &str) -> (r: bool)
    ensures
        r == spec_is_template_noise(text@),
{
    let chars = chars_of(text);
    let c = compact_chars(&chars);
    if c.len() == 0 {
        return true;
    }
    holds_noise_pattern(&c)
}

/// Whether a transcript is to be discarded: its normal form is empty, is template noise, or
/// has at most one content character.
pub open spec fn spec_should_drop(s: Seq<char>) -> bool {
    let n = spec_normalize(s);
    n.len() == 0 || spec_is_template_noise(n) || spec_compact(n).len() <= 1
}

/// Decides whether a transcript, raw or refined, is worth delivering.
pub fn should_drop_transcript(text: &str) -> (r: bool)
    ensures
        r == spec_should_drop(text@),
{
    let chars = chars_of(text);
    let trimmed = trim(&chars);
    let n = collapse(&trimmed);
    if n.len() == 0 {
        return true;
    }
    let c = compact_chars(&n);
    if c.len() == 0 {
        return true;
    }
    if holds_noise_pattern(&c) {
        return true;
    }
    c.len() <= 1
}

/// A blank transcript is always discarded.
pub proof fn lemma_blank_is_dropped(s: Seq<char>)
    requires
        spec_is_blank(s),
    ensures
        spec_should_drop(s),
{
    lemma_trim_empty_iff_blank(s);
    assert(spec_trim(s) =~= Seq::<char>::empty());
}

} // verus!
