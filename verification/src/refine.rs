use crate::text::chars_of;
use vstd::prelude::*;
use vstd::string::StringExecFns;

verus! {

/// Whether `c` is a letter of the basic Latin alphabet.
pub open spec fn spec_is_ascii_alpha(c: char) -> bool {
    ('a' <= c && c <= 'z') || ('A' <= c && c <= 'Z')
}

/// Whether `c` is a CJK unified ideograph of the basic block.
pub open spec fn spec_is_han(c: char) -> bool {
    '\u{4e00}' <= c && c <= '\u{9fff}'
}

/// How many basic Latin letters `s` holds.
pub open spec fn spec_latin_count(s: Seq<char>) -> nat
    decreases s.len(),
{
    if s.len() == 0 {
        0
    } else {
        spec_latin_count(s.drop_last()) + if spec_is_ascii_alpha(s.last()) {
            1nat
        } else {
            0nat
        }
    }
}

/// How many CJK ideographs `s` holds.
pub open spec fn spec_han_count(s: Seq<char>) -> nat
    decreases s.len(),
{
    if s.len() == 0 {
        0
    } else {
        spec_han_count(s.drop_last()) + if spec_is_han(s.last()) {
            1nat
        } else {
            0nat
        }
    }
}

/// Whether a text reads as English: it holds letters or ideographs, and at least seven in
/// ten of them are Latin letters.
pub open spec fn spec_mostly_english(s: Seq<char>) -> bool {
    let latin = spec_latin_count(s);
    let total = latin + spec_han_count(s);
    total > 0 && latin * 10 >= total * 7
}

/// Whether at least seven in ten of the letters and ideographs of `text` are Latin letters.
pub fn mostly_english(text: &str) -> (r: bool)
    ensures
        r == spec_mostly_english(text@),
{
    let v = chars_of(text);
    let mut latin: usize = 0;
    let mut han: usize = 0;
    let mut i: usize = 0;
    assert(v@.take(0) =~= Seq::<char>::empty());
    while i < v.len()
        invariant
            i <= v.len(),
            latin + han <= i,
            latin == spec_latin_count(v@.take(i as int)),
            han == spec_han_count(v@.take(i as int)),
        decreases v.len() - i,
    {
        let c = v[i];
        assert(v@.take(i + 1).drop_last() =~= v@.take(i as int));
        if ('a' <= c && c <= 'z') || ('A' <= c && c <= 'Z') {
            latin += 1;
        } else if '\u{4e00}' <= c && c <= '\u{9fff}' {
            han += 1;
        }
        i += 1;
    }
    assert(v@.take(v.len() as int) =~= v@);
    let total: u128 = latin as u128 + han as u128;
    total > 0 && (latin as u128) * 10 >= total * 7
}

/// The instructions that precede an English transcript.
pub open spec fn spec_refine_head_en() -> Seq<char> {
    "You are an input-method text polisher. Rewrite the ASR text into natural, concise English ready to send.\nRules:\n1) Keep the original meaning and key facts.\n2) Remove fillers, stutters, and duplicate fragments.\n3) Keep names, numbers, code terms, and URLs unchanged.\n4) Do not translate into Chinese.\n5) Do not explain, do not add commentary, and do not ask follow-up questions.\n6) If content is empty/invalid, output an empty string.\nOutput only the final text.\n\n"@
}

/// The instructions that precede a Chinese transcript.
pub open spec fn spec_refine_head_zh() -> Seq<char> {
    "你是输入法润色器。将 ASR 文本整理为可直接发送的自然中文。\n规则：\n1) 保留原意与事实，不新增信息；\n2) 删除口癖、重复、卡顿；\n3) 专名、数字、代码、URL 原样保留；\n4) 不解释、不寒暄、不提问；\n5) 若内容为空或无效，仅输出空字符串；\n6) 只输出最终文本。\n\n"@
}

/// The prompt for a transcript: the instructions in the transcript's language, then the
/// transcript itself.
pub open spec fn spec_refine_prompt(raw: Seq<char>) -> Seq<char> {
    if spec_mostly_english(raw) {
        spec_refine_head_en() + raw
    } else {
        spec_refine_head_zh() + raw
    }
}

/// The instructions that precede an English transcript.
pub fn refine_head_en() -> (r: &'static str)
    ensures
        r@ == spec_refine_head_en(),
{
    "You are an input-method text polisher. Rewrite the ASR text into natural, concise English ready to send.\nRules:\n1) Keep the original meaning and key facts.\n2) Remove fillers, stutters, and duplicate fragments.\n3) Keep names, numbers, code terms, and URLs unchanged.\n4) Do not translate into Chinese.\n5) Do not explain, do not add commentary, and do not ask follow-up questions.\n6) If content is empty/invalid, output an empty string.\nOutput only the final text.\n\n"
}

/// The instructions that precede a Chinese transcript.
pub fn refine_head_zh() -> (r: &'static str)
    ensures
        r@ == spec_refine_head_zh(),
{
    "你是输入法润色器。将 ASR 文本整理为可直接发送的自然中文。\n规则：\n1) 保留原意与事实，不新增信息；\n2) 删除口癖、重复、卡顿；\n3) 专名、数字、代码、URL 原样保留；\n4) 不解释、不寒暄、不提问；\n5) 若内容为空或无效，仅输出空字符串；\n6) 只输出最终文本。\n\n"
}

/// Builds the prompt that asks the language model to polish `raw_text`: English
/// instructions for a mostly English transcript, Chinese ones otherwise, and the transcript
/// unchanged at the end.
pub fn build_refine_prompt(raw_text: &str) -> (r: String)
    ensures
        r@ == spec_refine_prompt(raw_text@),
{
    let head = if mostly_english(raw_text) {
        refine_head_en()
    } else {
        refine_head_zh()
    };
    String::from_str(head).concat(raw_text)
}

} // verus!
