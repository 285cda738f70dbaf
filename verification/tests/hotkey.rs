use mofa_macos_ime::hotkey::{
    code_from_chars, decimal_chars, hotkey_code_from_token, hotkey_code_to_label,
    hotkey_code_to_token, modifier_bit, named_key_code, named_key_label, parse_hotkey_chars,
    HotkeySpec, HOTKEY_FN_CODE, HOTKEY_MOD_ALT, HOTKEY_MOD_CMD, HOTKEY_MOD_CTRL, HOTKEY_MOD_SHIFT,
};
use mofa_macos_ime::hotkey_tap::{event_flags_to_hotkey_modifiers, tap_step, KeyEvent, TapState};
use mofa_macos_ime::pipeline::HotkeySignal;

fn cv(s: &str) -> Vec<char> {
    s.chars().collect()
}

fn key(keycode: u16, modifiers: u8) -> HotkeySpec {
    HotkeySpec { keycode, modifiers }
}

#[test]
fn fn_key_is_fn() {
    assert_eq!(HotkeySpec::fn_key(), key(0xFFFF, 0));
    assert_eq!(HOTKEY_FN_CODE, u16::MAX);
    assert!(HotkeySpec::fn_key().is_fn());
    assert!(!key(49, 0).is_fn());
}

#[test]
fn pack_puts_modifiers_above_the_key_code() {
    assert_eq!(key(49, 9).pack(), 49 | (9 << 16));
    assert_eq!(HotkeySpec::fn_key().pack(), 0xFFFF);
    assert_eq!(key(0, 0).pack(), 0);
    assert_eq!(key(0xFFFF, 0xFF).pack(), 0x00FF_FFFF);
}

#[test]
fn unpack_reads_the_low_24_bits() {
    assert_eq!(HotkeySpec::unpack(49 | (9 << 16)), key(49, 9));
    assert_eq!(HotkeySpec::unpack(0x1234_5678), key(0x5678, 0x34));
    assert_eq!(HotkeySpec::unpack(0), key(0, 0));
}

#[test]
fn unpack_undoes_pack() {
    for keycode in [0u16, 1, 49, 122, 255, 256, 0xFFFE, 0xFFFF] {
        for modifiers in [0u8, 1, 2, 4, 8, 15, 0xFF] {
            let h = key(keycode, modifiers);
            assert_eq!(HotkeySpec::unpack(h.pack()), h);
        }
    }
}

#[test]
fn parse_reads_combinations() {
    assert_eq!(
        HotkeySpec::parse("cmd+shift+space"),
        Some(key(49, HOTKEY_MOD_CMD | HOTKEY_MOD_SHIFT))
    );
    assert_eq!(HotkeySpec::parse(" Ctrl + F5 "), Some(key(96, HOTKEY_MOD_CTRL)));
    assert_eq!(
        HotkeySpec::parse("command+control+option+shift+a"),
        Some(key(0, 15))
    );
    assert_eq!(HotkeySpec::parse("a+alt"), Some(key(0, HOTKEY_MOD_ALT)));
    assert_eq!(HotkeySpec::parse("cmd++a"), Some(key(0, HOTKEY_MOD_CMD)));
    assert_eq!(HotkeySpec::parse("cmd+cmd+b"), Some(key(11, HOTKEY_MOD_CMD)));
    assert_eq!(HotkeySpec::parse("f12"), Some(key(111, 0)));
    assert_eq!(HotkeySpec::parse("keycode:200"), Some(key(200, 0)));
    assert_eq!(HotkeySpec::parse("shift+keycode: 7"), Some(key(7, HOTKEY_MOD_SHIFT)));
}

#[test]
fn parse_reads_fn() {
    assert_eq!(HotkeySpec::parse("fn"), Some(HotkeySpec::fn_key()));
    assert_eq!(HotkeySpec::parse("  FN "), Some(HotkeySpec::fn_key()));
    assert_eq!(HotkeySpec::parse("fn+"), Some(HotkeySpec::fn_key()));
}

#[test]
fn parse_rejects_what_is_no_binding() {
    assert_eq!(HotkeySpec::parse(""), None);
    assert_eq!(HotkeySpec::parse("   "), None);
    assert_eq!(HotkeySpec::parse("cmd"), None);
    assert_eq!(HotkeySpec::parse("cmd+shift"), None);
    assert_eq!(HotkeySpec::parse("a+b"), None);
    assert_eq!(HotkeySpec::parse("cmd+fn"), None);
    assert_eq!(HotkeySpec::parse("fn+shift"), None);
    assert_eq!(HotkeySpec::parse("cmd+nosuchkey"), None);
    assert_eq!(HotkeySpec::parse("+"), None);
    assert_eq!(HotkeySpec::parse("keycode:70000"), None);
    assert_eq!(parse_hotkey_chars(&cv("a+b")), None);
    assert_eq!(parse_hotkey_chars(&cv("alt+tab")), Some(key(48, HOTKEY_MOD_ALT)));
}

#[test]
fn a_number_is_a_key_code_before_it_is_a_name() {
    assert_eq!(hotkey_code_from_token("1"), Some(1));
    assert_eq!(hotkey_code_from_token("5"), Some(5));
    assert_eq!(hotkey_code_from_token("0"), Some(0));
    assert_eq!(hotkey_code_from_token("65535"), Some(65535));
    assert_eq!(hotkey_code_from_token("65536"), None);
    assert_eq!(named_key_code(&cv("1")), Some(18));
    assert_eq!(named_key_code(&cv("5")), Some(23));
}

#[test]
fn code_from_token_table() {
    assert_eq!(hotkey_code_from_token("fn"), Some(0xFFFF));
    assert_eq!(hotkey_code_from_token(" A "), Some(0));
    assert_eq!(hotkey_code_from_token("space"), Some(49));
    assert_eq!(hotkey_code_from_token("Return"), Some(36));
    assert_eq!(hotkey_code_from_token("enter"), Some(36));
    assert_eq!(hotkey_code_from_token("="), Some(24));
    assert_eq!(hotkey_code_from_token("equal"), Some(24));
    assert_eq!(hotkey_code_from_token("minus"), Some(27));
    assert_eq!(hotkey_code_from_token("-"), Some(27));
    assert_eq!(hotkey_code_from_token("backspace"), Some(51));
    assert_eq!(hotkey_code_from_token("escape"), Some(53));
    assert_eq!(hotkey_code_from_token("f1"), Some(122));
    assert_eq!(hotkey_code_from_token("F10"), Some(109));
    assert_eq!(hotkey_code_from_token("keycode:12"), Some(12));
    assert_eq!(hotkey_code_from_token("KeyCode: 12 "), Some(12));
    assert_eq!(hotkey_code_from_token("keycode:x"), None);
    assert_eq!(hotkey_code_from_token("keycode:"), None);
    assert_eq!(hotkey_code_from_token(""), None);
    assert_eq!(hotkey_code_from_token("f13"), None);
    assert_eq!(code_from_chars(&cv("tab")), Some(48));
}

#[test]
fn modifier_names() {
    assert_eq!(modifier_bit(&cv("cmd")), Some(1));
    assert_eq!(modifier_bit(&cv("command")), Some(1));
    assert_eq!(modifier_bit(&cv("ctrl")), Some(2));
    assert_eq!(modifier_bit(&cv("control")), Some(2));
    assert_eq!(modifier_bit(&cv("alt")), Some(4));
    assert_eq!(modifier_bit(&cv("option")), Some(4));
    assert_eq!(modifier_bit(&cv("shift")), Some(8));
    assert_eq!(modifier_bit(&cv("Shift")), None);
    assert_eq!(modifier_bit(&cv("")), None);
}

#[test]
fn labels_and_tokens_of_key_codes() {
    assert_eq!(hotkey_code_to_label(0xFFFF), "Fn");
    assert_eq!(hotkey_code_to_label(0), "A");
    assert_eq!(hotkey_code_to_label(49), "Space");
    assert_eq!(hotkey_code_to_label(122), "F1");
    assert_eq!(hotkey_code_to_label(10), "Keycode 10");
    assert_eq!(hotkey_code_to_label(200), "Keycode 200");
    assert_eq!(hotkey_code_to_label(65534), "Keycode 65534");
    assert_eq!(hotkey_code_to_token(0xFFFF), "fn");
    assert_eq!(hotkey_code_to_token(0), "a");
    assert_eq!(hotkey_code_to_token(24), "=");
    assert_eq!(hotkey_code_to_token(27), "-");
    assert_eq!(hotkey_code_to_token(36), "return");
    assert_eq!(hotkey_code_to_token(48), "tab");
    assert_eq!(hotkey_code_to_token(49), "space");
    assert_eq!(hotkey_code_to_token(51), "delete");
    assert_eq!(hotkey_code_to_token(53), "esc");
    assert_eq!(hotkey_code_to_token(111), "f12");
    assert_eq!(hotkey_code_to_token(18), "1");
    assert_eq!(hotkey_code_to_token(10), "keycode:10");
    assert_eq!(hotkey_code_to_token(300), "keycode:300");
    assert_eq!(named_key_label(96), Some("F5"));
    assert_eq!(named_key_label(10), None);
}

#[test]
fn decimal_digits() {
    for n in [0u16, 9, 10, 99, 100, 4096, 65535] {
        let s: String = decimal_chars(n).into_iter().collect();
        assert_eq!(s, n.to_string());
    }
}

#[test]
fn token_and_label_of_bindings() {
    assert_eq!(HotkeySpec::fn_key().token(), "fn");
    assert_eq!(HotkeySpec::fn_key().label(), "Fn");
    assert_eq!(key(49, 9).token(), "cmd+shift+space");
    assert_eq!(key(49, 9).label(), "Cmd+Shift+Space");
    assert_eq!(key(0, 15).token(), "cmd+ctrl+alt+shift+a");
    assert_eq!(key(0, 15).label(), "Cmd+Ctrl+Alt+Shift+A");
    assert_eq!(key(96, 0).token(), "f5");
    assert_eq!(key(96, 0).label(), "F5");
    assert_eq!(key(200, 2).token(), "ctrl+keycode:200");
    assert_eq!(key(200, 2).label(), "Ctrl+Keycode 200");
}

#[test]
fn token_is_read_back_for_letter_and_function_keys() {
    for keycode in [0u16, 11, 17, 36, 48, 49, 51, 53, 96, 111, 122, 200, 65534] {
        for modifiers in 0u8..16 {
            let h = key(keycode, modifiers);
            assert_eq!(HotkeySpec::parse(&h.token()), Some(h), "{}", h.token());
        }
    }
}

#[test]
fn modifiers_from_event_flags() {
    assert_eq!(event_flags_to_hotkey_modifiers(false, false, false, false), 0);
    assert_eq!(event_flags_to_hotkey_modifiers(true, false, false, false), 1);
    assert_eq!(event_flags_to_hotkey_modifiers(false, true, false, false), 2);
    assert_eq!(event_flags_to_hotkey_modifiers(false, false, true, false), 4);
    assert_eq!(event_flags_to_hotkey_modifiers(false, false, false, true), 8);
    assert_eq!(event_flags_to_hotkey_modifiers(true, true, true, true), 15);
}

#[test]
fn fn_binding_follows_the_fn_flag() {
    let h = HotkeySpec::fn_key();
    let s0 = TapState::new();
    let (s1, sig) = tap_step(s0, h, KeyEvent::FlagsChanged { modifiers: 0, secondary_fn: true });
    assert_eq!(sig, Some(HotkeySignal::Down));
    assert!(s1.fn_pressed);
    let (s2, sig) = tap_step(s1, h, KeyEvent::FlagsChanged { modifiers: 8, secondary_fn: true });
    assert_eq!(sig, None);
    let (s3, sig) = tap_step(s2, h, KeyEvent::FlagsChanged { modifiers: 0, secondary_fn: false });
    assert_eq!(sig, Some(HotkeySignal::Up));
    assert_eq!(s3, TapState::new());
    let (s4, sig) = tap_step(s3, h, KeyEvent::KeyDown { keycode: 49, modifiers: 0, repeat: false });
    assert_eq!((s4, sig), (s3, None));
}

#[test]
fn combination_sends_down_once_and_up_on_release() {
    let h = key(49, 1);
    let s0 = TapState::new();
    let (s, sig) = tap_step(s0, h, KeyEvent::KeyDown { keycode: 49, modifiers: 0, repeat: false });
    assert_eq!((s, sig), (s0, None));
    let (s, sig) = tap_step(s0, h, KeyEvent::KeyDown { keycode: 48, modifiers: 1, repeat: false });
    assert_eq!((s, sig), (s0, None));
    let (s1, sig) = tap_step(s0, h, KeyEvent::KeyDown { keycode: 49, modifiers: 1, repeat: false });
    assert_eq!(sig, Some(HotkeySignal::Down));
    assert!(s1.combo_pressed);
    let (s2, sig) = tap_step(s1, h, KeyEvent::KeyDown { keycode: 49, modifiers: 1, repeat: true });
    assert_eq!((s2, sig), (s1, None));
    let (s2, sig) = tap_step(s1, h, KeyEvent::KeyDown { keycode: 49, modifiers: 1, repeat: false });
    assert_eq!((s2, sig), (s1, None));
    let (s3, sig) = tap_step(s1, h, KeyEvent::KeyUp { keycode: 48 });
    assert_eq!((s3, sig), (s1, None));
    let (s3, sig) = tap_step(s1, h, KeyEvent::KeyUp { keycode: 49 });
    assert_eq!(sig, Some(HotkeySignal::Up));
    assert_eq!(s3, TapState::new());
    let (s4, sig) = tap_step(s3, h, KeyEvent::KeyUp { keycode: 49 });
    assert_eq!((s4, sig), (s3, None));
}

#[test]
fn releasing_a_modifier_ends_the_combination() {
    let h = key(49, 1);
    let held = TapState { fn_pressed: false, combo_pressed: true };
    let (s, sig) = tap_step(held, h, KeyEvent::FlagsChanged { modifiers: 1, secondary_fn: false });
    assert_eq!((s, sig), (held, None));
    let (s, sig) = tap_step(held, h, KeyEvent::FlagsChanged { modifiers: 0, secondary_fn: false });
    assert_eq!(sig, Some(HotkeySignal::Up));
    assert_eq!(s, TapState::new());
    let (s, sig) = tap_step(held, h, KeyEvent::Other);
    assert_eq!((s, sig), (held, None));
}
