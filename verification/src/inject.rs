use crate::text::{chars_of, is_blank, spec_is_blank};
use vstd::prelude::*;
use vstd::string::StringExecFns;

verus! {

/// How often the clipboard route is tried before the keystroke route takes over.
pub const PASTE_ATTEMPTS: u8 = 2;

/// How long, in milliseconds, the target is given to take the paste before the clipboard is
/// put back.
pub const PASTE_SETTLE_MS: u64 = 260;

/// How long, in milliseconds, the engine waits after a paste attempt that failed.
pub const PASTE_RETRY_PAUSE_MS: u64 = 90;

/// Where a delivery stands. `T` is the type of text: `String` in running code, `Seq<char>`
/// in contracts.
#[derive(Clone, Debug, PartialEq, Eq)]
pub enum InjectStage<T> {
    /// Accessibility route: the focused element is being fetched.
    Focusing,
    /// Accessibility route: the selection is being replaced by the text.
    SettingSelection,
    /// Accessibility route: the element's whole value is being read.
    ReadingValue,
    /// Accessibility route: the value with the text appended is being written back.
    WritingValue,
    /// Clipboard route: the clipboard's contents are being saved.
    Saving { attempt: u8 },
    /// Clipboard route: the text is being put on the clipboard; `old` is what was saved.
    Writing { attempt: u8, old: Option<T> },
    /// Clipboard route: the paste shortcut is being sent.
    Pasting { attempt: u8, old: Option<T> },
    /// Clipboard route: the target is given time to take the paste.
    Settling { attempt: u8, old: Option<T> },
    /// Clipboard route: the saved contents are being put back; `pasted` says whether the
    /// attempt got as far as a paste that was sent.
    Restoring { attempt: u8, pasted: bool },
    /// Clipboard route: the pause after an attempt that failed.
    Pausing { attempt: u8 },
    /// Keystroke route: the text is being typed as synthetic key events.
    Typing,
    /// The delivery is over.
    Done { delivered: bool },
}

/// A delivery under way: the text and the stage it has reached.
#[derive(Clone, Debug, PartialEq, Eq)]
pub struct Injection<T> {
    pub text: T,
    pub stage: InjectStage<T>,
}

/// What the platform answered to the last command.
#[derive(Clone, Debug, PartialEq, Eq)]
pub enum InjectReply<T> {
    Succeeded,
    Failed,
    /// The text that was asked for.
    Value(T),
    /// There is no text where one was asked for.
    NoValue,
}

/// What the platform is to do next.
#[derive(Clone, Debug, PartialEq, Eq)]
pub enum InjectCommand<T> {
    /// Check the accessibility permission and fetch the focused element.
    AcquireFocus,
    /// Set the focused element's selected text to `text`.
    SetSelectedText { text: T },
    /// Read the focused element's whole value.
    ReadValue,
    /// Set the focused element's whole value to `text`.
    WriteValue { text: T },
    /// Read the clipboard's text.
    SaveClipboard,
    /// Clear the clipboard and put `text` on it.
    WriteClipboard { text: T },
    /// Send the paste shortcut to the focused application.
    PostPaste,
    /// Wait for `ms` milliseconds, then answer.
    Wait { ms: u64 },
    /// Clear the clipboard and, where `old` holds a text, put it back.
    RestoreClipboard { old: Option<T> },
    /// Send `text` as synthetic key events.
    TypeText { text: T },
    /// Nothing more: the text was delivered, or every route failed.
    Finish { delivered: bool },
}

/// The view of an optional string.
pub open spec fn opt_view(o: Option<String>) -> Option<Seq<char>> {
    match o {
        Some(s) => Some(s@),
        None => None,
    }
}

impl View for InjectStage<String> {
    type V = InjectStage<Seq<char>>;

    open spec fn view(&self) -> InjectStage<Seq<char>> {
        match *self {
            InjectStage::Focusing => InjectStage::Focusing,
            InjectStage::SettingSelection => InjectStage::SettingSelection,
            InjectStage::ReadingValue => InjectStage::ReadingValue,
            InjectStage::WritingValue => InjectStage::WritingValue,
            InjectStage::Saving { attempt } => InjectStage::Saving { attempt },
            InjectStage::Writing { attempt, old } => InjectStage::Writing {
                attempt,
                old: opt_view(old),
            },
            InjectStage::Pasting { attempt, old } => InjectStage::Pasting {
                attempt,
                old: opt_view(old),
            },
            InjectStage::Settling { attempt, old } => InjectStage::Settling {
                attempt,
                old: opt_view(old),
            },
            InjectStage::Restoring { attempt, pasted } => InjectStage::Restoring { attempt, pasted },
            InjectStage::Pausing { attempt } => InjectStage::Pausing { attempt },
            InjectStage::Typing => InjectStage::Typing,
            InjectStage::Done { delivered } => InjectStage::Done { delivered },
        }
    }
}

impl View for Injection<String> {
    type V = Injection<Seq<char>>;

    open spec fn view(&self) -> Injection<Seq<char>> {
        Injection { text: self.text@, stage: self.stage@ }
    }
}

impl View for InjectReply<String> {
    type V = InjectReply<Seq<char>>;

    open spec fn view(&self) -> InjectReply<Seq<char>> {
        match *self {
            InjectReply::Succeeded => InjectReply::Succeeded,
            InjectReply::Failed => InjectReply::Failed,
            InjectReply::Value(t) => InjectReply::Value(t@),
            InjectReply::NoValue => InjectReply::NoValue,
        }
    }
}

impl View for InjectCommand<String> {
    type V = InjectCommand<Seq<char>>;

    open spec fn view(&self) -> InjectCommand<Seq<char>> {
        match *self {
            InjectCommand::AcquireFocus => InjectCommand::AcquireFocus,
            InjectCommand::SetSelectedText { text } => InjectCommand::SetSelectedText {
                text: text@,
            },
            InjectCommand::ReadValue => InjectCommand::ReadValue,
            InjectCommand::WriteValue { text } => InjectCommand::WriteValue { text: text@ },
            InjectCommand::SaveClipboard => InjectCommand::SaveClipboard,
            InjectCommand::WriteClipboard { text } => InjectCommand::WriteClipboard { text: text@ },
            InjectCommand::PostPaste => InjectCommand::PostPaste,
            InjectCommand::Wait { ms } => InjectCommand::Wait { ms },
            InjectCommand::RestoreClipboard { old } => InjectCommand::RestoreClipboard {
                old: opt_view(old),
            },
            InjectCommand::TypeText { text } => InjectCommand::TypeText { text: text@ },
            InjectCommand::Finish { delivered } => InjectCommand::Finish { delivered },
        }
    }
}

/// How a delivery begins: a blank text counts as delivered and nothing is done; any other
/// goes first by the accessibility route.
pub open spec fn spec_start_injection(text: Seq<char>) -> (
    Injection<Seq<char>>,
    InjectCommand<Seq<char>>,
) {
    if spec_is_blank(text) {
        (
            Injection { text, stage: InjectStage::Done { delivered: true } },
            InjectCommand::Finish { delivered: true },
        )
    } else {
        (Injection { text, stage: InjectStage::Focusing }, InjectCommand::AcquireFocus)
    }
}

/// The step that ends a delivery.
pub open spec fn spec_done(text: Seq<char>, delivered: bool) -> (
    Injection<Seq<char>>,
    InjectCommand<Seq<char>>,
) {
    (
        Injection { text, stage: InjectStage::Done { delivered } },
        InjectCommand::Finish { delivered },
    )
}

/// The step that opens clipboard attempt number `attempt`.
pub open spec fn spec_try_clipboard(text: Seq<char>, attempt: u8) -> (
    Injection<Seq<char>>,
    InjectCommand<Seq<char>>,
) {
    (Injection { text, stage: InjectStage::Saving { attempt } }, InjectCommand::SaveClipboard)
}

/// The step that follows a clipboard attempt that failed: a pause.
pub open spec fn spec_paste_failed(text: Seq<char>, attempt: u8) -> (
    Injection<Seq<char>>,
    InjectCommand<Seq<char>>,
) {
    (
        Injection { text, stage: InjectStage::Pausing { attempt } },
        InjectCommand::Wait { ms: PASTE_RETRY_PAUSE_MS },
    )
}

/// The step that puts the saved clipboard contents back.
pub open spec fn spec_restore(
    text: Seq<char>,
    attempt: u8,
    old: Option<Seq<char>>,
    pasted: bool,
) -> (Injection<Seq<char>>, InjectCommand<Seq<char>>) {
    (
        Injection { text, stage: InjectStage::Restoring { attempt, pasted } },
        InjectCommand::RestoreClipboard { old },
    )
}

/// The engine's transition function. The three routes are tried strictly in order: the
/// accessibility write (selection first, whole value second), the clipboard paste (twice),
/// the synthetic keystrokes. Once the clipboard has been saved, every way on leads through
/// putting it back.
pub open spec fn spec_injection_step(inj: Injection<Seq<char>>, reply: InjectReply<Seq<char>>) -> (
    Injection<Seq<char>>,
    InjectCommand<Seq<char>>,
) {
    let text = inj.text;
    match inj.stage {
        InjectStage::Focusing => match reply {
            InjectReply::Succeeded => (
                Injection { text, stage: InjectStage::SettingSelection },
                InjectCommand::SetSelectedText { text },
            ),
            _ => spec_try_clipboard(text, 1),
        },
        InjectStage::SettingSelection => match reply {
            InjectReply::Succeeded => spec_done(text, true),
            _ => (Injection { text, stage: InjectStage::ReadingValue }, InjectCommand::ReadValue),
        },
        InjectStage::ReadingValue => match reply {
            InjectReply::Value(current) => (
                Injection { text, stage: InjectStage::WritingValue },
                InjectCommand::WriteValue { text: current + text },
            ),
            _ => spec_try_clipboard(text, 1),
        },
        InjectStage::WritingValue => match reply {
            InjectReply::Succeeded => spec_done(text, true),
            _ => spec_try_clipboard(text, 1),
        },
        InjectStage::Saving { attempt } => match reply {
            InjectReply::Value(old) => (
                Injection { text, stage: InjectStage::Writing { attempt, old: Some(old) } },
                InjectCommand::WriteClipboard { text },
            ),
            InjectReply::NoValue => (
                Injection { text, stage: InjectStage::Writing { attempt, old: None } },
                InjectCommand::WriteClipboard { text },
            ),
            _ => spec_paste_failed(text, attempt),
        },
        InjectStage::Writing { attempt, old } => match reply {
            InjectReply::Succeeded => (
                Injection { text, stage: InjectStage::Pasting { attempt, old } },
                InjectCommand::PostPaste,
            ),
            _ => spec_restore(text, attempt, old, false),
        },
        InjectStage::Pasting { attempt, old } => match reply {
            InjectReply::Succeeded => (
                Injection { text, stage: InjectStage::Settling { attempt, old } },
                InjectCommand::Wait { ms: PASTE_SETTLE_MS },
            ),
            _ => spec_restore(text, attempt, old, false),
        },
        InjectStage::Settling { attempt, old } => spec_restore(text, attempt, old, true),
        InjectStage::Restoring { attempt, pasted } => if pasted {
            spec_done(text, true)
        } else {
            spec_paste_failed(text, attempt)
        },
        InjectStage::Pausing { attempt } => if attempt < PASTE_ATTEMPTS {
            spec_try_clipboard(text, (attempt + 1) as u8)
        } else {
            (Injection { text, stage: InjectStage::Typing }, InjectCommand::TypeText { text })
        },
        InjectStage::Typing => match reply {
            InjectReply::Succeeded => spec_done(text, true),
            _ => spec_done(text, false),
        },
        InjectStage::Done { delivered } => spec_done(text, delivered),
    }
}

/// Begins the delivery of `text`.
pub fn start_injection(text: &str) -> (r: (Injection<String>, InjectCommand<String>))
    ensures
        r.0@ == spec_start_injection(text@).0,
        r.1@ == spec_start_injection(text@).1,
{
    let blank = is_blank(&chars_of(text));
    let owned = String::from_str(text);
    if blank {
        (
            Injection { text: owned, stage: InjectStage::Done { delivered: true } },
            InjectCommand::Finish { delivered: true },
        )
    } else {
        (Injection { text: owned, stage: InjectStage::Focusing }, InjectCommand::AcquireFocus)
    }
}

/// Builds the step that ends a delivery.
fn done(text: String, delivered: bool) -> (r: (Injection<String>, InjectCommand<String>))
    ensures
        r.0@ == spec_done(text@, delivered).0,
        r.1@ == spec_done(text@, delivered).1,
{
    (
        Injection { text, stage: InjectStage::Done { delivered } },
        InjectCommand::Finish { delivered },
    )
}

/// Builds the step that opens a clipboard attempt.
fn try_clipboard(text: String, attempt: u8) -> (r: (Injection<String>, InjectCommand<String>))
    ensures
        r.0@ == spec_try_clipboard(text@, attempt).0,
        r.1@ == spec_try_clipboard(text@, attempt).1,
{
    (Injection { text, stage: InjectStage::Saving { attempt } }, InjectCommand::SaveClipboard)
}

/// Builds the step that follows a clipboard attempt that failed.
fn paste_failed(text: String, attempt: u8) -> (r: (Injection<String>, InjectCommand<String>))
    ensures
        r.0@ == spec_paste_failed(text@, attempt).0,
        r.1@ == spec_paste_failed(text@, attempt).1,
{
    (
        Injection { text, stage: InjectStage::Pausing { attempt } },
        InjectCommand::Wait { ms: PASTE_RETRY_PAUSE_MS },
    )
}

/// Builds the step that puts the saved clipboard contents back.
fn restore(text: String, attempt: u8, old: Option<String>, pasted: bool) -> (r: (
    Injection<String>,
    InjectCommand<String>,
))
    ensures
        r.0@ == spec_restore(text@, attempt, opt_view(old), pasted).0,
        r.1@ == spec_restore(text@, attempt, opt_view(old), pasted).1,
{
    (
        Injection { text, stage: InjectStage::Restoring { attempt, pasted } },
        InjectCommand::RestoreClipboard { old },
    )
}

/// Takes a delivery one step on, given the platform's answer to the last command.
pub fn injection_step(inj: Injection<String>, reply: InjectReply<String>) -> (r: (
    Injection<String>,
    InjectCommand<String>,
))
    ensures
        r.0@ == spec_injection_step(inj@, reply@).0,
        r.1@ == spec_injection_step(inj@, reply@).1,
{
    let Injection { text, stage } = inj;
    match stage {
        InjectStage::Focusing => match reply {
            InjectReply::Succeeded => {
                let payload = text.clone();
                (
                    Injection { text, stage: InjectStage::SettingSelection },
                    InjectCommand::SetSelectedText { text: payload },
                )
            },
            _ => try_clipboard(text, 1),
        },
        InjectStage::SettingSelection => match reply {
            InjectReply::Succeeded => done(text, true),
            _ => (Injection { text, stage: InjectStage::ReadingValue }, InjectCommand::ReadValue),
        },
        InjectStage::ReadingValue => match reply {
            InjectReply::Value(current) => {
                let merged = current.concat(text.as_str());
                (
                    Injection { text, stage: InjectStage::WritingValue },
                    InjectCommand::WriteValue { text: merged },
                )
            },
            _ => try_clipboard(text, 1),
        },
        InjectStage::WritingValue => match reply {
            InjectReply::Succeeded => done(text, true),
            _ => try_clipboard(text, 1),
        },
        InjectStage::Saving { attempt } => match reply {
            InjectReply::Value(old) => {
                let payload = text.clone();
                (
                    Injection { text, stage: InjectStage::Writing { attempt, old: Some(old) } },
                    InjectCommand::WriteClipboard { text: payload },
                )
            },
            InjectReply::NoValue => {
                let payload = text.clone();
                (
                    Injection { text, stage: InjectStage::Writing { attempt, old: None } },
                    InjectCommand::WriteClipboard { text: payload },
                )
            },
            _ => paste_failed(text, attempt),
        },
        InjectStage::Writing { attempt, old } => match reply {
            InjectReply::Succeeded => (
                Injection { text, stage: InjectStage::Pasting { attempt, old } },
                InjectCommand::PostPaste,
            ),
            _ => restore(text, attempt, old, false),
        },
        InjectStage::Pasting { attempt, old } => match reply {
            InjectReply::Succeeded => (
                Injection { text, stage: InjectStage::Settling { attempt, old } },
                InjectCommand::Wait { ms: PASTE_SETTLE_MS },
            ),
            _ => restore(text, attempt, old, false),
        },
        InjectStage::Settling { attempt, old } => restore(text, attempt, old, true),
        InjectStage::Restoring { attempt, pasted } => if pasted {
            done(text, true)
        } else {
            paste_failed(text, attempt)
        },
        InjectStage::Pausing { attempt } => if attempt < PASTE_ATTEMPTS {
            try_clipboard(text, attempt + 1)
        } else {
            let payload = text.clone();
            (Injection { text, stage: InjectStage::Typing }, InjectCommand::TypeText {
                text: payload,
            })
        },
        InjectStage::Typing => match reply {
            InjectReply::Succeeded => done(text, true),
            _ => done(text, false),
        },
        InjectStage::Done { delivered } => done(text, delivered),
    }
}

/// A blank text is delivered by doing nothing.
pub proof fn lemma_blank_text_is_a_no_op(text: Seq<char>)
    requires
        spec_is_blank(text),
    ensures
        spec_start_injection(text).1 == (InjectCommand::<Seq<char>>::Finish { delivered: true }),
{
}

/// Failure is reported only after the keystroke route was tried: the step that gives up
/// starts from the typing stage, unless the delivery had failed already.
pub proof fn lemma_failure_only_after_typing(
    inj: Injection<Seq<char>>,
    reply: InjectReply<Seq<char>>,
)
    requires
        spec_injection_step(inj, reply).1 == (InjectCommand::<Seq<char>>::Finish {
            delivered: false,
        }),
    ensures
        inj.stage is Typing || inj.stage == (InjectStage::<Seq<char>>::Done { delivered: false }),
{
}

/// The typing stage is reached only by the command to type the text, and only after the
/// pause that follows the last clipboard attempt.
pub proof fn lemma_typing_follows_last_paste(
    inj: Injection<Seq<char>>,
    reply: InjectReply<Seq<char>>,
)
    requires
        spec_injection_step(inj, reply).0.stage is Typing,
    ensures
        inj.stage matches InjectStage::Pausing { attempt } && attempt >= PASTE_ATTEMPTS,
        spec_injection_step(inj, reply).1 == (InjectCommand::TypeText { text: inj.text }),
{
}

/// What the clipboard held before a paste attempt, while the attempt has it in hand.
pub open spec fn spec_saved_clipboard(stage: InjectStage<Seq<char>>) -> Option<Option<Seq<char>>> {
    match stage {
        InjectStage::Writing { old, .. } => Some(old),
        InjectStage::Pasting { old, .. } => Some(old),
        InjectStage::Settling { old, .. } => Some(old),
        _ => None,
    }
}

/// Once a paste attempt has saved the clipboard, it leaves only by putting the saved
/// contents back, whether the paste went through or not: each step either keeps the saved
/// contents in hand or issues the command that restores exactly them.
pub proof fn lemma_clipboard_is_restored(inj: Injection<Seq<char>>, reply: InjectReply<Seq<char>>)
    requires
        spec_saved_clipboard(inj.stage) is Some,
    ensures
        spec_saved_clipboard(spec_injection_step(inj, reply).0.stage) == spec_saved_clipboard(
            inj.stage,
        ) || spec_injection_step(inj, reply).1 == (InjectCommand::RestoreClipboard {
            old: spec_saved_clipboard(inj.stage)->0,
        }),
{
}

/// A paste attempt that did not get through is followed by a pause and then, while
/// attempts are left, by another; the attempts are counted up.
pub proof fn lemma_paste_is_retried(text: Seq<char>, attempt: u8, reply: InjectReply<Seq<char>>)
    requires
        attempt < PASTE_ATTEMPTS,
    ensures
        spec_injection_step(Injection { text, stage: InjectStage::Pausing { attempt } }, reply)
            == spec_try_clipboard(text, (attempt + 1) as u8),
{
}

/// The text of a delivery never changes, and a delivery that is over stays over.
pub proof fn lemma_injection_keeps_text(inj: Injection<Seq<char>>, reply: InjectReply<Seq<char>>)
    ensures
        spec_injection_step(inj, reply).0.text == inj.text,
        inj.stage is Done ==> spec_injection_step(inj, reply).0.stage == inj.stage,
{
}

/// The commands that the engine issues, in order, when the platform answers with `replies`.
pub open spec fn spec_commands(
    inj: Injection<Seq<char>>,
    replies: Seq<InjectReply<Seq<char>>>,
) -> Seq<InjectCommand<Seq<char>>>
    decreases replies.len(),
{
    if replies.len() == 0 {
        Seq::empty()
    } else {
        let next = spec_injection_step(inj, replies[0]);
        seq![next.1] + spec_commands(next.0, replies.drop_first())
    }
}

/// One command is issued for each reply.
pub proof fn lemma_commands_len(inj: Injection<Seq<char>>, replies: Seq<InjectReply<Seq<char>>>)
    ensures
        spec_commands(inj, replies).len() == replies.len(),
    decreases replies.len(),
{
    if replies.len() > 0 {
        lemma_commands_len(spec_injection_step(inj, replies[0]).0, replies.drop_first());
    }
}

/// Whatever the platform answers, in a delivery that has not reached the keystroke route
/// yet every report of failure comes after the command to type the text: the last route is
/// tried before the engine gives up.
pub proof fn lemma_keystrokes_before_failure(
    inj: Injection<Seq<char>>,
    replies: Seq<InjectReply<Seq<char>>>,
    i: int,
)
    requires
        !(inj.stage is Typing),
        inj.stage != (InjectStage::<Seq<char>>::Done { delivered: false }),
        0 <= i < replies.len(),
        spec_commands(inj, replies)[i] == (InjectCommand::<Seq<char>>::Finish {
            delivered: false,
        }),
    ensures
        exists|j: int|
            0 <= j < i && #[trigger] spec_commands(inj, replies)[j] == (InjectCommand::TypeText {
                text: inj.text,
            }),
    decreases replies.len(),
{
    let next = spec_injection_step(inj, replies[0]);
    let rest = replies.drop_first();
    let all = spec_commands(inj, replies);
    lemma_commands_len(inj, replies);
    lemma_commands_len(next.0, rest);
    assert(all == seq![next.1] + spec_commands(next.0, rest));
    assert(all[0] == next.1);
    assert(i > 0);
    assert(all[i] == spec_commands(next.0, rest)[i - 1]);
    if next.0.stage is Typing {
        assert(all[0] == (InjectCommand::TypeText { text: inj.text }));
    } else {
        lemma_keystrokes_before_failure(next.0, rest, i - 1);
        let j = choose|j: int|
            0 <= j < i - 1 && #[trigger] spec_commands(next.0, rest)[j] == (InjectCommand::TypeText {
                text: next.0.text,
            });
        assert(all[j + 1] == spec_commands(next.0, rest)[j]);
    }
}

} // verus!
