use crate::hotkey::{
    HotkeySpec, HOTKEY_MOD_ALT, HOTKEY_MOD_CMD, HOTKEY_MOD_CTRL, HOTKEY_MOD_SHIFT,
};
use crate::pipeline::HotkeySignal;
use vstd::prelude::*;

verus! {

/// What the listener remembers between key events: whether the Fn key is down, and whether
/// the bound combination is down.
#[derive(Clone, Copy, Debug, PartialEq, Eq, Structural)]
pub struct TapState {
    pub fn_pressed: bool,
    pub combo_pressed: bool,
}

/// A key event as the listener sees it.
#[derive(Clone, Copy, Debug, PartialEq, Eq, Structural)]
pub enum KeyEvent {
    /// The set of modifier keys that are down changed.
    FlagsChanged { modifiers: u8, secondary_fn: bool },
    /// A key went down, or repeats while held.
    KeyDown { keycode: u16, modifiers: u8, repeat: bool },
    /// A key came up.
    KeyUp { keycode: u16 },
    /// Anything else.
    Other,
}

/// The modifier bits for the modifier keys that are down.
pub open spec fn spec_modifiers(command: bool, control: bool, alternate: bool, shift: bool) -> u8 {
    (if command {
        HOTKEY_MOD_CMD
    } else {
        0u8
    }) | (if control {
        HOTKEY_MOD_CTRL
    } else {
        0u8
    }) | (if alternate {
        HOTKEY_MOD_ALT
    } else {
        0u8
    }) | (if shift {
        HOTKEY_MOD_SHIFT
    } else {
        0u8
    })
}

/// Packs the four modifier flags of a key event into modifier bits.
pub fn event_flags_to_hotkey_modifiers(command: bool, control: bool, alternate: bool, shift: bool)
    -> (r: u8)
    ensures
        r == spec_modifiers(command, control, alternate, shift),
{
    let c: u8 = if command {
        HOTKEY_MOD_CMD
    } else {
        0
    };
    let t: u8 = if control {
        HOTKEY_MOD_CTRL
    } else {
        0
    };
    let a: u8 = if alternate {
        HOTKEY_MOD_ALT
    } else {
        0
    };
    let s: u8 = if shift {
        HOTKEY_MOD_SHIFT
    } else {
        0
    };
    c | t | a | s
}

/// What a key event means under the binding `hotkey`: the listener's new memory, and the
/// signal to send, if any.
///
/// Bound to the Fn key, the listener follows the Fn flag: `Down` when it appears, `Up` when
/// it goes. Bound to a combination, it sends `Down` when the key goes down with exactly the
/// bound modifiers, once, not again while the key repeats; and `Up` when the key comes up
/// or the modifiers change while the combination is down.
pub open spec fn spec_tap_step(state: TapState, hotkey: HotkeySpec, event: KeyEvent) -> (
    TapState,
    Option<HotkeySignal>,
) {
    match event {
        KeyEvent::FlagsChanged { modifiers, secondary_fn } => {
            if hotkey.is_fn() {
                (
                    TapState { fn_pressed: secondary_fn, combo_pressed: false },
                    if secondary_fn && !state.fn_pressed {
                        Some(HotkeySignal::Down)
                    } else if !secondary_fn && state.fn_pressed {
                        Some(HotkeySignal::Up)
                    } else {
                        None
                    },
                )
            } else if state.combo_pressed && modifiers != hotkey.modifiers {
                (TapState { fn_pressed: false, combo_pressed: false }, Some(HotkeySignal::Up))
            } else {
                (TapState { fn_pressed: false, combo_pressed: state.combo_pressed }, None)
            }
        },
        KeyEvent::KeyDown { keycode, modifiers, repeat } => {
            if hotkey.is_fn() || keycode != hotkey.keycode || modifiers != hotkey.modifiers
                || repeat {
                (state, None)
            } else if state.combo_pressed {
                (state, None)
            } else {
                (
                    TapState { fn_pressed: state.fn_pressed, combo_pressed: true },
                    Some(HotkeySignal::Down),
                )
            }
        },
        KeyEvent::KeyUp { keycode } => {
            if !hotkey.is_fn() && keycode == hotkey.keycode && state.combo_pressed {
                (
                    TapState { fn_pressed: state.fn_pressed, combo_pressed: false },
                    Some(HotkeySignal::Up),
                )
            } else {
                (state, None)
            }
        },
        KeyEvent::Other => (state, None),
    }
}

impl TapState {
    /// Nothing is held.
    pub fn new() -> (r: TapState)
        ensures
            r == (TapState { fn_pressed: false, combo_pressed: false }),
    {
        TapState { fn_pressed: false, combo_pressed: false }
    }

    /// Whether the hotkey counts as held.
    pub open spec fn held(self) -> bool {
        self.fn_pressed || self.combo_pressed
    }
}

/// Decides what a key event means under the binding `hotkey`.
pub fn tap_step(state: TapState, hotkey: HotkeySpec, event: KeyEvent) -> (r: (
    TapState,
    Option<HotkeySignal>,
))
    ensures
        r == spec_tap_step(state, hotkey, event),
{
    match event {
        KeyEvent::FlagsChanged { modifiers, secondary_fn } => {
            if hotkey.is_fn() {
                let signal = if secondary_fn && !state.fn_pressed {
                    Some(HotkeySignal::Down)
                } else if !secondary_fn && state.fn_pressed {
                    Some(HotkeySignal::Up)
                } else {
                    None
                };
                (TapState { fn_pressed: secondary_fn, combo_pressed: false }, signal)
            } else if state.combo_pressed && modifiers != hotkey.modifiers {
                (TapState { fn_pressed: false, combo_pressed: false }, Some(HotkeySignal::Up))
            } else {
                (TapState { fn_pressed: false, combo_pressed: state.combo_pressed }, None)
            }
        },
        KeyEvent::KeyDown { keycode, modifiers, repeat } => {
            if hotkey.is_fn() || keycode != hotkey.keycode || modifiers != hotkey.modifiers
                || repeat {
                (state, None)
            } else if state.combo_pressed {
                (state, None)
            } else {
                (
                    TapState { fn_pressed: state.fn_pressed, combo_pressed: true },
                    Some(HotkeySignal::Down),
                )
            }
        },
        KeyEvent::KeyUp { keycode } => {
            if !hotkey.is_fn() && keycode == hotkey.keycode && state.combo_pressed {
                (
                    TapState { fn_pressed: state.fn_pressed, combo_pressed: false },
                    Some(HotkeySignal::Up),
                )
            } else {
                (state, None)
            }
        },
        KeyEvent::Other => (state, None),
    }
}

/// While the binding stays the same, signals alternate: `Down` is sent only when the hotkey
/// was not held and is held after, `Up` only when it was held and is not after, and an
/// event without a signal leaves it held or not as it was.
pub proof fn lemma_signals_alternate(state: TapState, hotkey: HotkeySpec, event: KeyEvent)
    requires
        hotkey.is_fn() ==> !state.combo_pressed,
        !hotkey.is_fn() ==> !state.fn_pressed,
    ensures
        ({
            let next = spec_tap_step(state, hotkey, event);
            &&& next.1 == Some(HotkeySignal::Down) ==> !state.held() && next.0.held()
            &&& next.1 == Some(HotkeySignal::Up) ==> state.held() && !next.0.held()
            &&& next.1 is None ==> next.0.held() == state.held()
            &&& hotkey.is_fn() ==> !next.0.combo_pressed
            &&& !hotkey.is_fn() ==> !next.0.fn_pressed
        }),
{
}

} // verus!
