//! The desktop window's life beside the tray icon: the tray shows and hides
//! it, closing it only hides it, and only the tray's quit entry ends the
//! application.
use vstd::prelude::*;

verus! {

/// What the tray asks of the window.
#[derive(PartialEq, Eq, Structural, Clone, Copy)]
pub enum TrayAction {
    /// Show the window where it is hidden, hide it where it is shown.
    ToggleWindow,
    /// End the application.
    Quit,
}

/// The window as the decisions see it: whether it is shown, and whether the
/// user has asked to quit.
#[derive(PartialEq, Eq, Structural, Clone, Copy)]
pub struct WindowState {
    pub visible: bool,
    pub quit_requested: bool,
}

/// What to do to the window.
#[derive(PartialEq, Eq, Structural, Clone, Copy)]
pub enum WindowEffect {
    Nothing,
    Hide,
    ShowAndPresent,
    QuitApplication,
}

/// The outcome of one look at the tray's messages.
#[derive(PartialEq, Eq, Structural, Clone, Copy)]
pub struct TrayStep {
    pub state: WindowState,
    pub effect: WindowEffect,
    /// Whether to keep listening to the tray.
    pub keep_listening: bool,
}

/// The window as it starts: built, hidden in the tray.
pub fn initial_window_state() -> (s: WindowState)
    ensures
        !s.visible,
        !s.quit_requested,
{
    WindowState { visible: false, quit_requested: false }
}

/// The action of a click on the tray icon.
pub fn tray_click_action() -> (a: TrayAction)
    ensures
        a == TrayAction::ToggleWindow,
{
    TrayAction::ToggleWindow
}

/// The step for one look at the tray's messages, `None` where there was none.
pub open spec fn tray_step_spec(state: WindowState, message: Option<TrayAction>) -> TrayStep {
    match message {
        None => TrayStep { state, effect: WindowEffect::Nothing, keep_listening: true },
        Some(TrayAction::ToggleWindow) => if state.visible {
            TrayStep {
                state: WindowState { visible: false, ..state },
                effect: WindowEffect::Hide,
                keep_listening: true,
            }
        } else {
            TrayStep {
                state: WindowState { visible: true, ..state },
                effect: WindowEffect::ShowAndPresent,
                keep_listening: true,
            }
        },
        Some(TrayAction::Quit) => TrayStep {
            state: WindowState { quit_requested: true, ..state },
            effect: WindowEffect::QuitApplication,
            keep_listening: false,
        },
    }
}

/// Handles one look at the tray's messages.
pub fn on_tray_message(state: WindowState, message: Option<TrayAction>) -> (r: TrayStep)
    ensures
        r == tray_step_spec(state, message),
        message is None ==> r.state == state && r.effect == WindowEffect::Nothing
            && r.keep_listening,
        message == Some(TrayAction::ToggleWindow) ==> r.state.visible == !state.visible
            && r.state.quit_requested == state.quit_requested && r.keep_listening && r.effect == (
            if state.visible {
                WindowEffect::Hide
            } else {
                WindowEffect::ShowAndPresent
            }),
        message == Some(TrayAction::Quit) ==> r.state.quit_requested && r.state.visible
            == state.visible && !r.keep_listening && r.effect == WindowEffect::QuitApplication,
{
    proof {
        lemma_tray_step(state, message);
    }
    match message {
        None => TrayStep { state, effect: WindowEffect::Nothing, keep_listening: true },
        Some(TrayAction::ToggleWindow) => {
            if state.visible {
                TrayStep {
                    state: WindowState { visible: false, quit_requested: state.quit_requested },
                    effect: WindowEffect::Hide,
                    keep_listening: true,
                }
            } else {
                TrayStep {
                    state: WindowState { visible: true, quit_requested: state.quit_requested },
                    effect: WindowEffect::ShowAndPresent,
                    keep_listening: true,
                }
            }
        },
        Some(TrayAction::Quit) => TrayStep {
            state: WindowState { visible: state.visible, quit_requested: true },
            effect: WindowEffect::QuitApplication,
            keep_listening: false,
        },
    }
}

/// What becomes of a request to close the window.
#[derive(PartialEq, Eq, Structural, Clone, Copy)]
pub enum CloseDecision {
    /// Let the window close.
    Close,
    /// Keep the window and hide it in the tray.
    HideInTray,
}

/// The decision on a request to close the window: the window closes only once
/// the user has asked to quit; before that it is hidden in the tray.
pub open spec fn close_spec(state: WindowState) -> (WindowState, CloseDecision) {
    if state.quit_requested {
        (state, CloseDecision::Close)
    } else {
        (WindowState { visible: false, quit_requested: false }, CloseDecision::HideInTray)
    }
}

/// Decides a request to close the window.
pub fn on_close_request(state: WindowState) -> (r: (WindowState, CloseDecision))
    ensures
        r == close_spec(state),
        (r.1 == CloseDecision::Close) == state.quit_requested,
        state.quit_requested ==> r.0 == state,
        !state.quit_requested ==> !r.0.visible && !r.0.quit_requested,
{
    if state.quit_requested {
        (state, CloseDecision::Close)
    } else {
        (WindowState { visible: false, quit_requested: false }, CloseDecision::HideInTray)
    }
}

/// Activating the application again shows the window and brings it forward.
pub fn on_activate(state: WindowState) -> (r: (WindowState, WindowEffect))
    ensures
        r == (WindowState { visible: true, ..state }, WindowEffect::ShowAndPresent),
{
    (WindowState { visible: true, quit_requested: state.quit_requested }, WindowEffect::ShowAndPresent)
}

/// What a look at the tray's messages does: with no message nothing changes
/// and the tray is listened to further; a toggle flips the window's
/// visibility, hiding a shown window and showing a hidden one, and keeps the
/// quit request as it was; the quit entry records the request, ends the
/// application and the listening, and leaves the window as it was.
pub proof fn lemma_tray_step(state: WindowState, message: Option<TrayAction>)
    ensures
        ({
            let step = tray_step_spec(state, message);
            &&& message is None ==> step.state == state && step.effect == WindowEffect::Nothing
                && step.keep_listening
            &&& message == Some(TrayAction::ToggleWindow) ==> step.state.visible == !state.visible
                && step.state.quit_requested == state.quit_requested && step.keep_listening
                && step.effect == (if state.visible {
                WindowEffect::Hide
            } else {
                WindowEffect::ShowAndPresent
            })
            &&& message == Some(TrayAction::Quit) ==> step.state.quit_requested
                && step.state.visible == state.visible && !step.keep_listening && step.effect
                == WindowEffect::QuitApplication
        }),
{
}

/// Toggling twice from the tray leaves the window as it was, having hidden and
/// shown it (or shown and hidden it) on the way.
pub proof fn lemma_toggle_twice(state: WindowState)
    ensures
        ({
            let first = tray_step_spec(state, Some(TrayAction::ToggleWindow));
            let second = tray_step_spec(first.state, Some(TrayAction::ToggleWindow));
            &&& second.state == state
            &&& first.state.visible == !state.visible
            &&& first.keep_listening && second.keep_listening
            &&& (first.effect == WindowEffect::Hide) == state.visible
            &&& (second.effect == WindowEffect::Hide) == !state.visible
        }),
{
}

/// Before the tray's quit entry, closing the window only hides it; a tray
/// message lets a later close through exactly when it is the quit entry, which
/// also ends the application and the listening to the tray.
pub proof fn lemma_close_only_after_quit(state: WindowState, message: Option<TrayAction>)
    requires
        !state.quit_requested,
    ensures
        close_spec(state).1 == CloseDecision::HideInTray,
        !close_spec(state).0.visible,
        ({
            let step = tray_step_spec(state, message);
            &&& (close_spec(step.state).1 == CloseDecision::Close) == (message == Some(
                TrayAction::Quit,
            ))
            &&& step.keep_listening == (message != Some(TrayAction::Quit))
            &&& (step.effect == WindowEffect::QuitApplication) == (message == Some(
                TrayAction::Quit,
            ))
        }),
{
}

} // verus!
