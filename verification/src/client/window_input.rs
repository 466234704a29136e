//! How the client window turns keyboard, IME and modifier events into what
//! it sends to the session: Ctrl+Alt+Enter toggles fullscreen locally, raw
//! keys are held back while the IME composes text, committed text is typed
//! as Unicode keys, and modifier changes are sent as presses and releases
//! of the left-hand modifier keys.

use vstd::prelude::*;

use crate::client::framebuffer::{Operation, text_operations, unicode_text_operations};
use crate::text::{contains_chars, contains_seq, str_chars};

verus! {

/// The PS/2 scancode of the Enter key.
pub const SCANCODE_ENTER: u32 = 0x1C;

/// The window's keyboard state.
pub struct KeyboardState {
    /// The IME is composing text.
    pub ime_preedit_active: bool,
    pub ctrl_pressed: bool,
    pub alt_pressed: bool,
    pub is_fullscreen: bool,
}

/// What a key event does.
#[derive(Debug, Clone, Copy, PartialEq, Eq, Structural)]
pub enum KeyAction {
    /// Enter (`true`) or leave borderless fullscreen; nothing is sent.
    SetFullscreen(bool),
    /// Nothing happens.
    Ignore,
    /// The scancode does not fit 16 bits; nothing is sent.
    Unsupported(u32),
    /// Send the key press or release.
    Forward { scancode: u16, pressed: bool },
}

/// A press or release of a key given by its scancode and extended flag.
#[derive(Debug, Clone, Copy, PartialEq, Eq, Structural)]
pub struct KeyOperation {
    pub extended: bool,
    pub code: u8,
    pub pressed: bool,
}

/// The left Shift, Control, Alt and logo keys in the given states.
pub open spec fn modifier_operations(shift: bool, ctrl: bool, alt: bool, logo: bool) -> Seq<KeyOperation> {
    seq![
        KeyOperation { extended: false, code: 0x2A, pressed: shift },
        KeyOperation { extended: false, code: 0x1D, pressed: ctrl },
        KeyOperation { extended: false, code: 0x38, pressed: alt },
        KeyOperation { extended: true, code: 0x5B, pressed: logo },
    ]
}

impl KeyboardState {
    /// No modifier held, no composition, windowed.
    pub fn new() -> (r: KeyboardState)
        ensures
            r == (KeyboardState {
                ime_preedit_active: false,
                ctrl_pressed: false,
                alt_pressed: false,
                is_fullscreen: false,
            }),
    {
        KeyboardState { ime_preedit_active: false, ctrl_pressed: false, alt_pressed: false, is_fullscreen: false }
    }

    /// A key was pressed or released (`scancode` is `None` when the key has
    /// none). Ctrl+Alt+Enter pressed toggles fullscreen; otherwise keys are
    /// dropped while the IME composes, and forwarded when their scancode
    /// fits 16 bits.
    pub fn on_keyboard_input(&mut self, pressed: bool, scancode: Option<u32>) -> (r: KeyAction)
        ensures
            key_step(*old(self), pressed, scancode, r, *final(self)),
    {
        if pressed && self.ctrl_pressed && self.alt_pressed && scancode == Some(SCANCODE_ENTER) {
            self.is_fullscreen = !self.is_fullscreen;
            return KeyAction::SetFullscreen(self.is_fullscreen);
        }
        if self.ime_preedit_active {
            return KeyAction::Ignore;
        }
        match scancode {
            None => KeyAction::Ignore,
            Some(s) => {
                if s <= 0xffff {
                    KeyAction::Forward { scancode: s as u16, pressed }
                } else {
                    KeyAction::Unsupported(s)
                }
            },
        }
    }

    /// The IME committed `text`: composition ends, and the text is typed.
    pub fn on_ime_commit(&mut self, text: &str) -> (r: Vec<Operation>)
        ensures
            r@ == text_operations(text@),
            *final(self) == (KeyboardState { ime_preedit_active: false, ..*old(self) }),
    {
        self.ime_preedit_active = false;
        unicode_text_operations(text)
    }

    /// The IME shows composition text; an empty one ends the composition.
    pub fn on_ime_preedit(&mut self, text_is_empty: bool)
        ensures
            *final(self) == (KeyboardState { ime_preedit_active: !text_is_empty, ..*old(self) }),
    {
        self.ime_preedit_active = !text_is_empty;
    }

    /// The IME was turned off.
    pub fn on_ime_disabled(&mut self)
        ensures
            *final(self) == (KeyboardState { ime_preedit_active: false, ..*old(self) }),
    {
        self.ime_preedit_active = false;
    }

    /// The modifier state changed. While the IME composes nothing happens
    /// (`None`); otherwise Ctrl and Alt are tracked, and the left Shift,
    /// Control, Alt and logo keys are sent in their new states.
    pub fn on_modifiers_changed(&mut self, shift: bool, ctrl: bool, alt: bool, logo: bool) -> (r: Option<
        Vec<KeyOperation>,
    >)
        ensures
            old(self).ime_preedit_active ==> r is None && *final(self) == *old(self),
            !old(self).ime_preedit_active ==> (r matches Some(ops) && ops@ == modifier_operations(
                shift,
                ctrl,
                alt,
                logo,
            )) && *final(self) == (KeyboardState { ctrl_pressed: ctrl, alt_pressed: alt, ..*old(self) }),
    {
        if self.ime_preedit_active {
            return None;
        }
        self.ctrl_pressed = ctrl;
        self.alt_pressed = alt;
        let mut ops: Vec<KeyOperation> = Vec::new();
        ops.push(KeyOperation { extended: false, code: 0x2A, pressed: shift });
        ops.push(KeyOperation { extended: false, code: 0x1D, pressed: ctrl });
        ops.push(KeyOperation { extended: false, code: 0x38, pressed: alt });
        ops.push(KeyOperation { extended: true, code: 0x5B, pressed: logo });
        assert(ops@ =~= modifier_operations(shift, ctrl, alt, logo));
        Some(ops)
    }
}

/// `r` and `t` are what a key event does in state `s` and the state after.
pub open spec fn key_step(s: KeyboardState, pressed: bool, scancode: Option<u32>, r: KeyAction, t: KeyboardState) -> bool {
    let toggle = pressed && s.ctrl_pressed && s.alt_pressed && scancode == Some(SCANCODE_ENTER);
    &&& toggle ==> r == KeyAction::SetFullscreen(!s.is_fullscreen) && t == (KeyboardState {
        is_fullscreen: !s.is_fullscreen,
        ..s
    })
    &&& !toggle ==> t == s
    &&& !toggle && s.ime_preedit_active ==> r == KeyAction::Ignore
    &&& !toggle && !s.ime_preedit_active ==> r == match scancode {
        None => KeyAction::Ignore,
        Some(c) => if c <= u16::MAX {
            KeyAction::Forward { scancode: c as u16, pressed }
        } else {
            KeyAction::Unsupported(c)
        },
    }
}

/// While the IME composes, raw keys do not reach the session (Ctrl+Alt+Enter
/// still toggles fullscreen), and nothing changes.
pub proof fn lemma_composition_holds_keys_back(
    s: KeyboardState,
    pressed: bool,
    scancode: Option<u32>,
    r: KeyAction,
    t: KeyboardState,
)
    requires
        s.ime_preedit_active,
        !(pressed && s.ctrl_pressed && s.alt_pressed && scancode == Some(SCANCODE_ENTER)),
        key_step(s, pressed, scancode, r, t),
    ensures
        r == KeyAction::Ignore,
        t == s,
{
}

/// Pressing Ctrl+Alt+Enter twice enters and leaves fullscreen (or the
/// reverse) and restores the state.
pub proof fn lemma_fullscreen_toggle_twice(
    s: KeyboardState,
    r1: KeyAction,
    t1: KeyboardState,
    r2: KeyAction,
    t2: KeyboardState,
)
    requires
        s.ctrl_pressed && s.alt_pressed,
        key_step(s, true, Some(SCANCODE_ENTER), r1, t1),
        key_step(t1, true, Some(SCANCODE_ENTER), r2, t2),
    ensures
        r1 == KeyAction::SetFullscreen(!s.is_fullscreen),
        r2 == KeyAction::SetFullscreen(s.is_fullscreen),
        t2 == s,
{
}

/// Exit status of a clean exit.
pub const EXIT_OK: i32 = 0;
/// Exit status when the window is closed with no other status recorded.
pub const EXIT_FAILURE: i32 = 1;
/// Exit status when the window or its drawing surface cannot be made.
pub const EXIT_TEMP_FAIL: i32 = 75;
/// Exit status after a connection failure or a session error.
pub const EXIT_PROTOCOL_ERR: i32 = 76;

/// The exit status recorded for when the user closes the window.
pub struct ExitPolicy {
    pub pending_close_code: Option<i32>,
}

impl ExitPolicy {
    /// Nothing recorded.
    pub fn new() -> (r: ExitPolicy)
        ensures
            r.pending_close_code is None,
    {
        ExitPolicy { pending_close_code: None }
    }

    /// The connection failed: the window stays open with the error, and
    /// closing it exits with a protocol error.
    pub fn on_connection_failure(&mut self)
        ensures
            final(self).pending_close_code == Some(EXIT_PROTOCOL_ERR),
    {
        self.pending_close_code = Some(EXIT_PROTOCOL_ERR);
    }

    /// The session ended with an error reported as `message`. When the GUI
    /// stopped first (the report says so), the client exits cleanly now;
    /// otherwise the window stays open with the error, and closing it exits
    /// with a protocol error.
    pub fn on_session_error(&mut self, message: &str) -> (r: Option<i32>)
        ensures
            contains_seq(message@, "GUI stopped unexpectedly"@) ==> r == Some(EXIT_OK)
                && final(self).pending_close_code == old(self).pending_close_code,
            !contains_seq(message@, "GUI stopped unexpectedly"@) ==> r is None
                && final(self).pending_close_code == Some(EXIT_PROTOCOL_ERR),
    {
        let text = str_chars(message);
        let marker = str_chars("GUI stopped unexpectedly");
        if contains_chars(&text, &marker) {
            Some(EXIT_OK)
        } else {
            self.pending_close_code = Some(EXIT_PROTOCOL_ERR);
            None
        }
    }

    /// The user closed the window. While the session runs it is asked to
    /// disconnect (`None`); when it is gone the client exits with the
    /// recorded status, or a failure when none was recorded.
    pub fn on_close_requested(&self, session_gone: bool) -> (r: Option<i32>)
        ensures
            !session_gone ==> r is None,
            session_gone ==> r == Some(
                match self.pending_close_code {
                    Some(c) => c,
                    None => EXIT_FAILURE,
                },
            ),
    {
        if !session_gone {
            return None;
        }
        match self.pending_close_code {
            Some(c) => Some(c),
            None => Some(EXIT_FAILURE),
        }
    }
}

} // verus!
