use mofa_macos_ime::inject::{
    injection_step, start_injection, InjectCommand, InjectReply, InjectStage, Injection,
    PASTE_ATTEMPTS, PASTE_RETRY_PAUSE_MS, PASTE_SETTLE_MS,
};

type Cmd = InjectCommand<String>;
type Reply = InjectReply<String>;

fn s(t: &str) -> String {
    t.to_string()
}

fn run(text: &str, replies: Vec<Reply>) -> (Vec<Cmd>, Injection<String>) {
    let (mut inj, first) = start_injection(text);
    let mut commands = vec![first];
    for r in replies {
        let (next, cmd) = injection_step(inj, r);
        inj = next;
        commands.push(cmd);
    }
    (commands, inj)
}

#[test]
fn blank_text_is_delivered_by_doing_nothing() {
    for t in ["", "   ", "\n\t "] {
        let (inj, cmd) = start_injection(t);
        assert_eq!(cmd, Cmd::Finish { delivered: true });
        assert_eq!(inj.stage, InjectStage::Done { delivered: true });
    }
}

#[test]
fn constants_of_the_clipboard_route() {
    assert_eq!(PASTE_ATTEMPTS, 2);
    assert_eq!(PASTE_SETTLE_MS, 260);
    assert_eq!(PASTE_RETRY_PAUSE_MS, 90);
}

#[test]
fn selection_is_replaced_when_accessibility_allows() {
    let (cmds, inj) = run("hi", vec![Reply::Succeeded, Reply::Succeeded]);
    assert_eq!(
        cmds,
        vec![
            Cmd::AcquireFocus,
            Cmd::SetSelectedText { text: s("hi") },
            Cmd::Finish { delivered: true },
        ]
    );
    assert_eq!(inj, Injection { text: s("hi"), stage: InjectStage::Done { delivered: true } });
}

#[test]
fn value_is_appended_when_selection_is_unsupported() {
    let (cmds, _) = run(
        "world",
        vec![Reply::Succeeded, Reply::Failed, Reply::Value(s("hello ")), Reply::Succeeded],
    );
    assert_eq!(
        cmds,
        vec![
            Cmd::AcquireFocus,
            Cmd::SetSelectedText { text: s("world") },
            Cmd::ReadValue,
            Cmd::WriteValue { text: s("hello world") },
            Cmd::Finish { delivered: true },
        ]
    );
}

#[test]
fn clipboard_paste_restores_the_clipboard_after_success() {
    let (cmds, inj) = run(
        "hi",
        vec![
            Reply::Failed,
            Reply::Value(s("old")),
            Reply::Succeeded,
            Reply::Succeeded,
            Reply::Succeeded,
            Reply::Failed,
        ],
    );
    assert_eq!(
        cmds,
        vec![
            Cmd::AcquireFocus,
            Cmd::SaveClipboard,
            Cmd::WriteClipboard { text: s("hi") },
            Cmd::PostPaste,
            Cmd::Wait { ms: 260 },
            Cmd::RestoreClipboard { old: Some(s("old")) },
            Cmd::Finish { delivered: true },
        ]
    );
    assert_eq!(inj.stage, InjectStage::Done { delivered: true });
}

#[test]
fn keystrokes_are_tried_after_accessibility_and_two_pastes_fail() {
    let (cmds, inj) = run(
        "hi",
        vec![
            Reply::Failed,
            Reply::Value(s("old")),
            Reply::Succeeded,
            Reply::Failed,
            Reply::Succeeded,
            Reply::Succeeded,
            Reply::NoValue,
            Reply::Failed,
            Reply::Failed,
            Reply::Succeeded,
            Reply::Failed,
        ],
    );
    assert_eq!(
        cmds,
        vec![
            Cmd::AcquireFocus,
            Cmd::SaveClipboard,
            Cmd::WriteClipboard { text: s("hi") },
            Cmd::PostPaste,
            Cmd::RestoreClipboard { old: Some(s("old")) },
            Cmd::Wait { ms: 90 },
            Cmd::SaveClipboard,
            Cmd::WriteClipboard { text: s("hi") },
            Cmd::RestoreClipboard { old: None },
            Cmd::Wait { ms: 90 },
            Cmd::TypeText { text: s("hi") },
            Cmd::Finish { delivered: false },
        ]
    );
    assert_eq!(inj.stage, InjectStage::Done { delivered: false });
}

#[test]
fn keystrokes_can_still_deliver() {
    let (cmds, inj) = run(
        "hi",
        vec![
            Reply::Succeeded,
            Reply::Failed,
            Reply::NoValue,
            Reply::Failed,
            Reply::Succeeded,
            Reply::Failed,
            Reply::Succeeded,
            Reply::Succeeded,
        ],
    );
    assert_eq!(
        cmds,
        vec![
            Cmd::AcquireFocus,
            Cmd::SetSelectedText { text: s("hi") },
            Cmd::ReadValue,
            Cmd::SaveClipboard,
            Cmd::Wait { ms: 90 },
            Cmd::SaveClipboard,
            Cmd::Wait { ms: 90 },
            Cmd::TypeText { text: s("hi") },
            Cmd::Finish { delivered: true },
        ]
    );
    assert_eq!(inj.stage, InjectStage::Done { delivered: true });
}

#[test]
fn second_paste_attempt_can_succeed() {
    let (cmds, _) = run(
        "hi",
        vec![
            Reply::Failed,
            Reply::NoValue,
            Reply::Failed,
            Reply::Succeeded,
            Reply::Succeeded,
            Reply::Value(s("")),
            Reply::Succeeded,
            Reply::Succeeded,
            Reply::Succeeded,
            Reply::Succeeded,
        ],
    );
    assert_eq!(
        cmds,
        vec![
            Cmd::AcquireFocus,
            Cmd::SaveClipboard,
            Cmd::WriteClipboard { text: s("hi") },
            Cmd::RestoreClipboard { old: None },
            Cmd::Wait { ms: 90 },
            Cmd::SaveClipboard,
            Cmd::WriteClipboard { text: s("hi") },
            Cmd::PostPaste,
            Cmd::Wait { ms: 260 },
            Cmd::RestoreClipboard { old: Some(s("")) },
            Cmd::Finish { delivered: true },
        ]
    );
}

#[test]
fn a_finished_delivery_stays_finished() {
    let done = Injection { text: s("hi"), stage: InjectStage::Done { delivered: false } };
    let (next, cmd) = injection_step(done.clone(), Reply::Succeeded);
    assert_eq!(next, done);
    assert_eq!(cmd, Cmd::Finish { delivered: false });
}
