use crate::text::{
    chars_eq, chars_of, lower, parse_u16, spec_lower, spec_parse_u16, spec_split, spec_starts_with,
    spec_trim, split, string_of, strip_prefix, trim, views,
};
use vstd::prelude::*;
use vstd::string::StringExecFns;

verus! {

/// Key code that stands for the Fn / Globe key, which has no ordinary virtual key code.
pub const HOTKEY_FN_CODE: u16 = 0xFFFF;

/// Modifier bit for the Command key.
pub const HOTKEY_MOD_CMD: u8 = 1;

/// Modifier bit for the Control key.
pub const HOTKEY_MOD_CTRL: u8 = 2;

/// Modifier bit for the Option key.
pub const HOTKEY_MOD_ALT: u8 = 4;

/// Modifier bit for the Shift key.
pub const HOTKEY_MOD_SHIFT: u8 = 8;

/// A key combination: one virtual key code and a set of modifier bits.
#[derive(Clone, Copy, Debug, PartialEq, Eq, Structural)]
pub struct HotkeySpec {
    pub keycode: u16,
    pub modifiers: u8,
}

/// The decimal digit that stands for `d`.
pub open spec fn spec_digit_char(d: nat) -> char {
    ((d + 48) as u8) as char
}

/// The decimal numeral of `n`, without leading zeros.
pub open spec fn spec_decimal(n: nat) -> Seq<char>
    decreases n,
{
    if n < 10 {
        seq![spec_digit_char(n)]
    } else {
        spec_decimal(n / 10).push(spec_digit_char(n % 10))
    }
}

/// Writes `n` in decimal.
pub fn decimal_chars(n: u16) -> (r: Vec<char>)
    ensures
        r@ == spec_decimal(n as nat),
    decreases n,
{
    if n < 10 {
        let d: u8 = n as u8;
        let mut r: Vec<char> = Vec::new();
        r.push((d + 48) as char);
        assert(r@ =~= seq![spec_digit_char(n as nat)]);
        r
    } else {
        let mut r = decimal_chars(n / 10);
        let d: u8 = (n % 10) as u8;
        r.push((d + 48) as char);
        r
    }
}

/// The modifier bit that a modifier's name stands for, if `p` is such a name.
pub open spec fn spec_modifier_bit(p: Seq<char>) -> Option<u8> {
    if p == "cmd"@ || p == "command"@ {
        Some(HOTKEY_MOD_CMD)
    } else if p == "ctrl"@ || p == "control"@ {
        Some(HOTKEY_MOD_CTRL)
    } else if p == "alt"@ || p == "option"@ {
        Some(HOTKEY_MOD_ALT)
    } else if p == "shift"@ {
        Some(HOTKEY_MOD_SHIFT)
    } else {
        None
    }
}

/// Looks a modifier's name up.
pub fn modifier_bit(p: &Vec<char>) -> (r: Option<u8>)
    ensures
        r == spec_modifier_bit(p@),
{
    if chars_eq(p, "cmd") || chars_eq(p, "command") {
        Some(HOTKEY_MOD_CMD)
    } else if chars_eq(p, "ctrl") || chars_eq(p, "control") {
        Some(HOTKEY_MOD_CTRL)
    } else if chars_eq(p, "alt") || chars_eq(p, "option") {
        Some(HOTKEY_MOD_ALT)
    } else if chars_eq(p, "shift") {
        Some(HOTKEY_MOD_SHIFT)
    } else {
        None
    }
}

/// The virtual key code that a key's name stands for, if `t` is such a name.
pub open spec fn spec_named_key_code(t: Seq<char>) -> Option<u16> {
    if t == "a"@ {
        Some(0u16)
    } else if t == "s"@ {
        Some(1u16)
    } else if t == "d"@ {
        Some(2u16)
    } else if t == "f"@ {
        Some(3u16)
    } else if t == "h"@ {
        Some(4u16)
    } else if t == "g"@ {
        Some(5u16)
    } else if t == "z"@ {
        Some(6u16)
    } else if t == "x"@ {
        Some(7u16)
    } else if t == "c"@ {
        Some(8u16)
    } else if t == "v"@ {
        Some(9u16)
    } else if t == "b"@ {
        Some(11u16)
    } else if t == "q"@ {
        Some(12u16)
    } else if t == "w"@ {
        Some(13u16)
    } else if t == "e"@ {
        Some(14u16)
    } else if t == "r"@ {
        Some(15u16)
    } else if t == "y"@ {
        Some(16u16)
    } else if t == "t"@ {
        Some(17u16)
    } else if t == "1"@ {
        Some(18u16)
    } else if t == "2"@ {
        Some(19u16)
    } else if t == "3"@ {
        Some(20u16)
    } else if t == "4"@ {
        Some(21u16)
    } else if t == "6"@ {
        Some(22u16)
    } else if t == "5"@ {
        Some(23u16)
    } else if t == "equal"@ {
        Some(24u16)
    } else if t == "="@ {
        Some(24u16)
    } else if t == "9"@ {
        Some(25u16)
    } else if t == "7"@ {
        Some(26u16)
    } else if t == "minus"@ {
        Some(27u16)
    } else if t == "-"@ {
        Some(27u16)
    } else if t == "8"@ {
        Some(28u16)
    } else if t == "0"@ {
        Some(29u16)
    } else if t == "return"@ {
        Some(36u16)
    } else if t == "enter"@ {
        Some(36u16)
    } else if t == "tab"@ {
        Some(48u16)
    } else if t == "space"@ {
        Some(49u16)
    } else if t == "delete"@ {
        Some(51u16)
    } else if t == "backspace"@ {
        Some(51u16)
    } else if t == "esc"@ {
        Some(53u16)
    } else if t == "escape"@ {
        Some(53u16)
    } else if t == "f1"@ {
        Some(122u16)
    } else if t == "f2"@ {
        Some(120u16)
    } else if t == "f3"@ {
        Some(99u16)
    } else if t == "f4"@ {
        Some(118u16)
    } else if t == "f5"@ {
        Some(96u16)
    } else if t == "f6"@ {
        Some(97u16)
    } else if t == "f7"@ {
        Some(98u16)
    } else if t == "f8"@ {
        Some(100u16)
    } else if t == "f9"@ {
        Some(101u16)
    } else if t == "f10"@ {
        Some(109u16)
    } else if t == "f11"@ {
        Some(103u16)
    } else if t == "f12"@ {
        Some(111u16)
    } else {
        None
    }
}

/// Looks a key's name up in the table of named keys.
pub fn named_key_code(t: &Vec<char>) -> (r: Option<u16>)
    ensures
        r == spec_named_key_code(t@),
{
    if chars_eq(t, "a") {
        Some(0)
    } else if chars_eq(t, "s") {
        Some(1)
    } else if chars_eq(t, "d") {
        Some(2)
    } else if chars_eq(t, "f") {
        Some(3)
    } else if chars_eq(t, "h") {
        Some(4)
    } else if chars_eq(t, "g") {
        Some(5)
    } else if chars_eq(t, "z") {
        Some(6)
    } else if chars_eq(t, "x") {
        Some(7)
    } else if chars_eq(t, "c") {
        Some(8)
    } else if chars_eq(t, "v") {
        Some(9)
    } else if chars_eq(t, "b") {
        Some(11)
    } else if chars_eq(t, "q") {
        Some(12)
    } else if chars_eq(t, "w") {
        Some(13)
    } else if chars_eq(t, "e") {
        Some(14)
    } else if chars_eq(t, "r") {
        Some(15)
    } else if chars_eq(t, "y") {
        Some(16)
    } else if chars_eq(t, "t") {
        Some(17)
    } else if chars_eq(t, "1") {
        Some(18)
    } else if chars_eq(t, "2") {
        Some(19)
    } else if chars_eq(t, "3") {
        Some(20)
    } else if chars_eq(t, "4") {
        Some(21)
    } else if chars_eq(t, "6") {
        Some(22)
    } else if chars_eq(t, "5") {
        Some(23)
    } else if chars_eq(t, "equal") {
        Some(24)
    } else if chars_eq(t, "=") {
        Some(24)
    } else if chars_eq(t, "9") {
        Some(25)
    } else if chars_eq(t, "7") {
        Some(26)
    } else if chars_eq(t, "minus") {
        Some(27)
    } else if chars_eq(t, "-") {
        Some(27)
    } else if chars_eq(t, "8") {
        Some(28)
    } else if chars_eq(t, "0") {
        Some(29)
    } else if chars_eq(t, "return") {
        Some(36)
    } else if chars_eq(t, "enter") {
        Some(36)
    } else if chars_eq(t, "tab") {
        Some(48)
    } else if chars_eq(t, "space") {
        Some(49)
    } else if chars_eq(t, "delete") {
        Some(51)
    } else if chars_eq(t, "backspace") {
        Some(51)
    } else if chars_eq(t, "esc") {
        Some(53)
    } else if chars_eq(t, "escape") {
        Some(53)
    } else if chars_eq(t, "f1") {
        Some(122)
    } else if chars_eq(t, "f2") {
        Some(120)
    } else if chars_eq(t, "f3") {
        Some(99)
    } else if chars_eq(t, "f4") {
        Some(118)
    } else if chars_eq(t, "f5") {
        Some(96)
    } else if chars_eq(t, "f6") {
        Some(97)
    } else if chars_eq(t, "f7") {
        Some(98)
    } else if chars_eq(t, "f8") {
        Some(100)
    } else if chars_eq(t, "f9") {
        Some(101)
    } else if chars_eq(t, "f10") {
        Some(109)
    } else if chars_eq(t, "f11") {
        Some(103)
    } else if chars_eq(t, "f12") {
        Some(111)
    } else {
        None
    }
}

/// The label of a key that has a name, by its virtual key code.
pub open spec fn spec_named_key_label(code: u16) -> Option<Seq<char>> {
    if code == 0 {
        Some("A"@)
    } else if code == 1 {
        Some("S"@)
    } else if code == 2 {
        Some("D"@)
    } else if code == 3 {
        Some("F"@)
    } else if code == 4 {
        Some("H"@)
    } else if code == 5 {
        Some("G"@)
    } else if code == 6 {
        Some("Z"@)
    } else if code == 7 {
        Some("X"@)
    } else if code == 8 {
        Some("C"@)
    } else if code == 9 {
        Some("V"@)
    } else if code == 11 {
        Some("B"@)
    } else if code == 12 {
        Some("Q"@)
    } else if code == 13 {
        Some("W"@)
    } else if code == 14 {
        Some("E"@)
    } else if code == 15 {
        Some("R"@)
    } else if code == 16 {
        Some("Y"@)
    } else if code == 17 {
        Some("T"@)
    } else if code == 18 {
        Some("1"@)
    } else if code == 19 {
        Some("2"@)
    } else if code == 20 {
        Some("3"@)
    } else if code == 21 {
        Some("4"@)
    } else if code == 22 {
        Some("6"@)
    } else if code == 23 {
        Some("5"@)
    } else if code == 24 {
        Some("="@)
    } else if code == 25 {
        Some("9"@)
    } else if code == 26 {
        Some("7"@)
    } else if code == 27 {
        Some("-"@)
    } else if code == 28 {
        Some("8"@)
    } else if code == 29 {
        Some("0"@)
    } else if code == 36 {
        Some("Return"@)
    } else if code == 48 {
        Some("Tab"@)
    } else if code == 49 {
        Some("Space"@)
    } else if code == 51 {
        Some("Delete"@)
    } else if code == 53 {
        Some("Esc"@)
    } else if code == 96 {
        Some("F5"@)
    } else if code == 97 {
        Some("F6"@)
    } else if code == 98 {
        Some("F7"@)
    } else if code == 99 {
        Some("F3"@)
    } else if code == 100 {
        Some("F8"@)
    } else if code == 101 {
        Some("F9"@)
    } else if code == 103 {
        Some("F11"@)
    } else if code == 109 {
        Some("F10"@)
    } else if code == 111 {
        Some("F12"@)
    } else if code == 118 {
        Some("F4"@)
    } else if code == 120 {
        Some("F2"@)
    } else if code == 122 {
        Some("F1"@)
    } else {
        None
    }
}

/// Looks a virtual key code up in the table of named keys.
pub fn named_key_label(code: u16) -> (r: Option<&'static str>)
    ensures
        r is Some == spec_named_key_label(code) is Some,
        r is Some ==> r->0@ == spec_named_key_label(code)->0,
{
    if code == 0 {
        Some("A")
    } else if code == 1 {
        Some("S")
    } else if code == 2 {
        Some("D")
    } else if code == 3 {
        Some("F")
    } else if code == 4 {
        Some("H")
    } else if code == 5 {
        Some("G")
    } else if code == 6 {
        Some("Z")
    } else if code == 7 {
        Some("X")
    } else if code == 8 {
        Some("C")
    } else if code == 9 {
        Some("V")
    } else if code == 11 {
        Some("B")
    } else if code == 12 {
        Some("Q")
    } else if code == 13 {
        Some("W")
    } else if code == 14 {
        Some("E")
    } else if code == 15 {
        Some("R")
    } else if code == 16 {
        Some("Y")
    } else if code == 17 {
        Some("T")
    } else if code == 18 {
        Some("1")
    } else if code == 19 {
        Some("2")
    } else if code == 20 {
        Some("3")
    } else if code == 21 {
        Some("4")
    } else if code == 22 {
        Some("6")
    } else if code == 23 {
        Some("5")
    } else if code == 24 {
        Some("=")
    } else if code == 25 {
        Some("9")
    } else if code == 26 {
        Some("7")
    } else if code == 27 {
        Some("-")
    } else if code == 28 {
        Some("8")
    } else if code == 29 {
        Some("0")
    } else if code == 36 {
        Some("Return")
    } else if code == 48 {
        Some("Tab")
    } else if code == 49 {
        Some("Space")
    } else if code == 51 {
        Some("Delete")
    } else if code == 53 {
        Some("Esc")
    } else if code == 96 {
        Some("F5")
    } else if code == 97 {
        Some("F6")
    } else if code == 98 {
        Some("F7")
    } else if code == 99 {
        Some("F3")
    } else if code == 100 {
        Some("F8")
    } else if code == 101 {
        Some("F9")
    } else if code == 103 {
        Some("F11")
    } else if code == 109 {
        Some("F10")
    } else if code == 111 {
        Some("F12")
    } else if code == 118 {
        Some("F4")
    } else if code == 120 {
        Some("F2")
    } else if code == 122 {
        Some("F1")
    } else {
        None
    }
}

/// The key code that a token names. The token is trimmed and lower-cased first. It is `fn`,
/// or `keycode:` and a number, or a bare number, or the name of a key; a number is tried
/// before a name, so a digit names the key code of that value.
pub open spec fn spec_code_from_token(token: Seq<char>) -> Option<u16> {
    let t = spec_lower(spec_trim(token));
    let keyed = if spec_starts_with(t, "keycode:"@) {
        spec_parse_u16(spec_trim(t.subrange("keycode:"@.len() as int, t.len() as int)))
    } else {
        None
    };
    if t == "fn"@ {
        Some(HOTKEY_FN_CODE)
    } else if keyed is Some {
        keyed
    } else if spec_parse_u16(t) is Some {
        spec_parse_u16(t)
    } else {
        spec_named_key_code(t)
    }
}

/// The key code that the characters of a token name.
pub fn code_from_chars(token: &Vec<char>) -> (r: Option<u16>)
    ensures
        r == spec_code_from_token(token@),
{
    let t = lower(&trim(token));
    if chars_eq(&t, "fn") {
        return Some(HOTKEY_FN_CODE);
    }
    match strip_prefix(&t, "keycode:") {
        Some(raw) => {
            match parse_u16(&trim(&raw)) {
                Some(v) => {
                    return Some(v);
                },
                None => {},
            }
        },
        None => {},
    }
    match parse_u16(&t) {
        Some(v) => {
            return Some(v);
        },
        None => {},
    }
    named_key_code(&t)
}

/// Reads the key part of a binding: `fn`, `keycode:NN`, a bare key code, or a key's name.
pub fn hotkey_code_from_token(token: &str) -> (r: Option<u16>)
    ensures
        r == spec_code_from_token(token@),
{
    let chars = chars_of(token);
    code_from_chars(&chars)
}

/// What a key is called in the settings: its name where it has one, `Keycode NN` otherwise.
pub open spec fn spec_code_label(code: u16) -> Seq<char> {
    if code == HOTKEY_FN_CODE {
        "Fn"@
    } else {
        match spec_named_key_label(code) {
            Some(l) => l,
            None => "Keycode "@ + spec_decimal(code as nat),
        }
    }
}

/// The human-readable name of a key.
pub fn hotkey_code_to_label(code: u16) -> (r: String)
    ensures
        r@ == spec_code_label(code),
{
    if code == HOTKEY_FN_CODE {
        return String::from_str("Fn");
    }
    match named_key_label(code) {
        Some(l) => String::from_str(l),
        None => {
            let digits = string_of(&decimal_chars(code));
            String::from_str("Keycode ").concat(digits.as_str())
        },
    }
}

/// How a key is written in the configuration file: a fixed word for the Fn key and for the
/// keys whose label is no good token, the lower-cased label for the other named keys, and
/// `keycode:NN` for a key without a name.
pub open spec fn spec_code_token(code: u16) -> Seq<char> {
    if code == HOTKEY_FN_CODE {
        "fn"@
    } else if code == 24 {
        "="@
    } else if code == 27 {
        "-"@
    } else if code == 36 {
        "return"@
    } else if code == 48 {
        "tab"@
    } else if code == 49 {
        "space"@
    } else if code == 51 {
        "delete"@
    } else if code == 53 {
        "esc"@
    } else {
        match spec_named_key_label(code) {
            Some(l) => spec_lower(l),
            None => "keycode:"@ + spec_decimal(code as nat),
        }
    }
}

/// The configuration-file token of a key.
pub fn hotkey_code_to_token(code: u16) -> (r: String)
    ensures
        r@ == spec_code_token(code),
{
    if code == HOTKEY_FN_CODE {
        String::from_str("fn")
    } else if code == 24 {
        String::from_str("=")
    } else if code == 27 {
        String::from_str("-")
    } else if code == 36 {
        String::from_str("return")
    } else if code == 48 {
        String::from_str("tab")
    } else if code == 49 {
        String::from_str("space")
    } else if code == 51 {
        String::from_str("delete")
    } else if code == 53 {
        String::from_str("esc")
    } else {
        match named_key_label(code) {
            Some(l) => string_of(&lower(&chars_of(l))),
            None => {
                let digits = string_of(&decimal_chars(code));
                String::from_str("keycode:").concat(digits.as_str())
            },
        }
    }
}

/// What the parts of a binding from index `i` on add to the modifiers and the key read so
/// far. A blank part counts for nothing; a modifier's name adds its bit; anything else must
/// name a key, and only one part may. The Fn key takes no modifiers.
pub open spec fn spec_parse_parts(
    parts: Seq<Seq<char>>,
    i: int,
    modifiers: u8,
    keycode: Option<u16>,
) -> Option<HotkeySpec>
    decreases parts.len() - i,
{
    if i < 0 || i >= parts.len() {
        match keycode {
            Some(k) => if k == HOTKEY_FN_CODE && modifiers != 0 {
                None
            } else {
                Some(HotkeySpec { keycode: k, modifiers })
            },
            None => None,
        }
    } else {
        let p = spec_trim(parts[i]);
        if p.len() == 0 {
            spec_parse_parts(parts, i + 1, modifiers, keycode)
        } else if spec_modifier_bit(p) is Some {
            spec_parse_parts(parts, i + 1, modifiers | spec_modifier_bit(p)->0, keycode)
        } else if spec_code_from_token(p) is Some && keycode is None {
            spec_parse_parts(parts, i + 1, modifiers, spec_code_from_token(p))
        } else {
            None
        }
    }
}

/// The binding that a text writes: `fn`, or modifier names and one key joined by `+`, in any
/// order and in any case, with blanks allowed around each part.
pub open spec fn spec_parse_hotkey(input: Seq<char>) -> Option<HotkeySpec> {
    let text = spec_lower(spec_trim(input));
    if text.len() == 0 {
        None
    } else if text == "fn"@ {
        Some(HotkeySpec { keycode: HOTKEY_FN_CODE, modifiers: 0 })
    } else {
        spec_parse_parts(spec_split(text, '+'), 0, 0, None)
    }
}

/// The modifier names of a binding as they stand in its token, each followed by `+`.
pub open spec fn spec_modifier_tokens(modifiers: u8) -> Seq<char> {
    (if modifiers & HOTKEY_MOD_CMD != 0 {
        "cmd+"@
    } else {
        Seq::<char>::empty()
    }) + (if modifiers & HOTKEY_MOD_CTRL != 0 {
        "ctrl+"@
    } else {
        Seq::<char>::empty()
    }) + (if modifiers & HOTKEY_MOD_ALT != 0 {
        "alt+"@
    } else {
        Seq::<char>::empty()
    }) + (if modifiers & HOTKEY_MOD_SHIFT != 0 {
        "shift+"@
    } else {
        Seq::<char>::empty()
    })
}

/// The modifier names of a binding as they stand in its label, each followed by `+`.
pub open spec fn spec_modifier_labels(modifiers: u8) -> Seq<char> {
    (if modifiers & HOTKEY_MOD_CMD != 0 {
        "Cmd+"@
    } else {
        Seq::<char>::empty()
    }) + (if modifiers & HOTKEY_MOD_CTRL != 0 {
        "Ctrl+"@
    } else {
        Seq::<char>::empty()
    }) + (if modifiers & HOTKEY_MOD_ALT != 0 {
        "Alt+"@
    } else {
        Seq::<char>::empty()
    }) + (if modifiers & HOTKEY_MOD_SHIFT != 0 {
        "Shift+"@
    } else {
        Seq::<char>::empty()
    })
}

/// Reads a binding from its characters.
pub fn parse_hotkey_chars(input: &Vec<char>) -> (r: Option<HotkeySpec>)
    ensures
        r == spec_parse_hotkey(input@),
{
    let text = lower(&trim(input));
    if text.len() == 0 {
        return None;
    }
    if chars_eq(&text, "fn") {
        return Some(HotkeySpec::fn_key());
    }
    let parts = split(&text, '+');
    let mut modifiers: u8 = 0;
    let mut keycode: Option<u16> = None;
    let mut i: usize = 0;
    while i < parts.len()
        invariant
            i <= parts.len(),
            text@ == spec_lower(spec_trim(input@)),
            text@.len() != 0,
            text@ != "fn"@,
            views(parts@) == spec_split(text@, '+'),
            spec_parse_parts(views(parts@), i as int, modifiers, keycode) == spec_parse_parts(
                views(parts@),
                0,
                0,
                None,
            ),
        decreases parts.len() - i,
    {
        let p = trim(&parts[i]);
        assert(views(parts@)[i as int] == parts@[i as int]@);
        if p.len() == 0 {
        } else {
            match modifier_bit(&p) {
                Some(m) => {
                    modifiers = modifiers | m;
                },
                None => {
                    match code_from_chars(&p) {
                        Some(code) => {
                            if keycode.is_some() {
                                return None;
                            }
                            keycode = Some(code);
                        },
                        None => {
                            return None;
                        },
                    }
                },
            }
        }
        i += 1;
    }
    match keycode {
        Some(k) => {
            if k == HOTKEY_FN_CODE && modifiers != 0 {
                None
            } else {
                Some(HotkeySpec { keycode: k, modifiers })
            }
        },
        None => None,
    }
}

impl HotkeySpec {
    /// The bare Fn key.
    pub fn fn_key() -> (r: Self)
        ensures
            r == (HotkeySpec { keycode: HOTKEY_FN_CODE, modifiers: 0 }),
    {
        HotkeySpec { keycode: HOTKEY_FN_CODE, modifiers: 0 }
    }

    pub open spec fn spec_is_fn(self) -> bool {
        self.keycode == HOTKEY_FN_CODE
    }

    /// Whether this binding is the Fn key.
    #[verifier::when_used_as_spec(spec_is_fn)]
    pub fn is_fn(self) -> (r: bool)
        ensures
            r == self.spec_is_fn(),
    {
        self.keycode == HOTKEY_FN_CODE
    }

    /// The binding as one number: the key code in the low 16 bits, the modifiers above them.
    pub open spec fn spec_pack(self) -> nat {
        self.keycode as nat + (self.modifiers as nat) * 0x10000
    }

    /// The binding that a packed number holds: bits 0 to 15 are the key code, bits 16 to
    /// 23 the modifiers; higher bits are ignored.
    pub open spec fn spec_unpack(v: nat) -> HotkeySpec {
        HotkeySpec { keycode: (v % 0x10000) as u16, modifiers: ((v / 0x10000) % 0x100) as u8 }
    }

    /// Packs the binding into one machine word, so that it fits an atomic cell.
    pub fn pack(self) -> (r: usize)
        ensures
            r == self.spec_pack(),
    {
        let k: u32 = self.keycode as u32;
        let m: u32 = self.modifiers as u32;
        let v: u32 = k | (m << 16);
        assert(v == k + m * 0x10000) by (bit_vector)
            requires
                v == k | (m << 16),
                k <= 0xFFFF,
                m <= 0xFF,
        ;
        v as usize
    }

    /// Reads a binding back from a packed word.
    pub fn unpack(v: usize) -> (r: Self)
        ensures
            r == Self::spec_unpack(v as nat),
    {
        let w: u64 = v as u64;
        let k: u64 = w & 0xFFFF;
        let m: u64 = (w >> 16) & 0xFF;
        assert(k == w % 0x10000 && m == (w / 0x10000) % 0x100) by (bit_vector)
            requires
                k == w & 0xFFFF,
                m == (w >> 16) & 0xFF,
        ;
        HotkeySpec { keycode: k as u16, modifiers: m as u8 }
    }

    /// Unpacking a packed binding gives the binding back.
    pub proof fn lemma_unpack_pack(self)
        ensures
            Self::spec_unpack(self.spec_pack()) == self,
    {
    }

    /// Reads a binding such as `cmd+shift+space`, `Ctrl + F5` or `fn`.
    pub fn parse(input: &str) -> (r: Option<Self>)
        ensures
            r == spec_parse_hotkey(input@),
    {
        parse_hotkey_chars(&chars_of(input))
    }

    /// How the binding is written in the configuration file.
    pub open spec fn spec_token(self) -> Seq<char> {
        if self.is_fn() {
            "fn"@
        } else {
            spec_modifier_tokens(self.modifiers) + spec_code_token(self.keycode)
        }
    }

    /// The binding as a token that `parse` reads: modifiers in the order cmd, ctrl, alt,
    /// shift, then the key, joined by `+`.
    pub fn token(self) -> (r: String)
        ensures
            r@ == self.spec_token(),
    {
        if self.is_fn() {
            return String::from_str("fn");
        }
        let mut s = String::new();
        if self.modifiers & HOTKEY_MOD_CMD != 0 {
            s.append("cmd+");
        }
        if self.modifiers & HOTKEY_MOD_CTRL != 0 {
            s.append("ctrl+");
        }
        if self.modifiers & HOTKEY_MOD_ALT != 0 {
            s.append("alt+");
        }
        if self.modifiers & HOTKEY_MOD_SHIFT != 0 {
            s.append("shift+");
        }
        assert(s@ =~= spec_modifier_tokens(self.modifiers));
        let key = hotkey_code_to_token(self.keycode);
        s.append(key.as_str());
        s
    }

    /// How the binding is shown to the user.
    pub open spec fn spec_label(self) -> Seq<char> {
        if self.is_fn() {
            "Fn"@
        } else {
            spec_modifier_labels(self.modifiers) + spec_code_label(self.keycode)
        }
    }

    /// The binding as the user reads it, such as `Cmd+Shift+Space`.
    pub fn label(self) -> (r: String)
        ensures
            r@ == self.spec_label(),
    {
        if self.is_fn() {
            return String::from_str("Fn");
        }
        let mut s = String::new();
        if self.modifiers & HOTKEY_MOD_CMD != 0 {
            s.append("Cmd+");
        }
        if self.modifiers & HOTKEY_MOD_CTRL != 0 {
            s.append("Ctrl+");
        }
        if self.modifiers & HOTKEY_MOD_ALT != 0 {
            s.append("Alt+");
        }
        if self.modifiers & HOTKEY_MOD_SHIFT != 0 {
            s.append("Shift+");
        }
        assert(s@ =~= spec_modifier_labels(self.modifiers));
        let key = hotkey_code_to_label(self.keycode);
        s.append(key.as_str());
        s
    }
}

} // verus!
