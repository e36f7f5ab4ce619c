//! The keyboard shortcuts: Escape closes the popup, Ctrl+Enter translates in
//! the desktop window; every other key goes on to the focused widget.
use vstd::prelude::*;

verus! {

/// A key press as the shortcuts see it.
#[derive(PartialEq, Eq, Structural, Clone, Copy)]
pub enum KeyPress {
    Escape,
    /// Return, with or without the Control modifier.
    Return { control: bool },
    Other,
}

/// What a key press does.
#[derive(PartialEq, Eq, Structural, Clone, Copy)]
pub enum KeyAction {
    /// Close the popup; the key stops here.
    ClosePopup,
    /// Press the translate button; the key stops here.
    Translate,
    /// Hand the key on.
    Pass,
}

/// A key press in the popup: Escape closes it.
pub fn popup_key_action(key: KeyPress) -> (r: KeyAction)
    ensures
        r == (if key == KeyPress::Escape {
            KeyAction::ClosePopup
        } else {
            KeyAction::Pass
        }),
{
    match key {
        KeyPress::Escape => KeyAction::ClosePopup,
        _ => KeyAction::Pass,
    }
}

/// A key press in the desktop window: Return with Control translates.
pub fn desktop_key_action(key: KeyPress) -> (r: KeyAction)
    ensures
        r == (if key == (KeyPress::Return { control: true }) {
            KeyAction::Translate
        } else {
            KeyAction::Pass
        }),
{
    match key {
        KeyPress::Return { control: true } => KeyAction::Translate,
        _ => KeyAction::Pass,
    }
}

} // verus!
