//! Footer mode transitions.
//!
//! The footer of the host UI is in exactly one mode at a time. The
//! transitions here decide which mode follows a shortcut toggle, an escape
//! press, or ordinary activity; rendering the chosen mode is the host's
//! business.

use vstd::prelude::*;

verus! {

/// What the footer is currently showing.
#[derive(Clone, Copy, Debug, PartialEq, Eq, Structural)]
pub enum FooterMode {
    ShortcutSummary,
    ContextOnly,
    ShortcutOverlay,
    EscHint,
    QuitShortcutReminder,
}

/// Toggle the shortcut overlay. While the quit reminder is showing and a
/// quit hint is pending, the toggle is ignored; otherwise the overlay and
/// the quit reminder collapse to the summary, and any other mode opens
/// the overlay.
pub fn toggle_shortcut_mode(current: FooterMode, ctrl_c_hint: bool) -> (r: FooterMode)
    ensures
        r == (if ctrl_c_hint && current is QuitShortcutReminder {
            current
        } else if current is ShortcutOverlay || current is QuitShortcutReminder {
            FooterMode::ShortcutSummary
        } else {
            FooterMode::ShortcutOverlay
        }),
{
    if ctrl_c_hint && matches!(current, FooterMode::QuitShortcutReminder) {
        return current;
    }
    match current {
        FooterMode::ShortcutOverlay | FooterMode::QuitShortcutReminder => {
            FooterMode::ShortcutSummary
        },
        _ => FooterMode::ShortcutOverlay,
    }
}

/// The mode after an escape press: the escape hint, unless a task is
/// running, in which case the mode stays as it is.
pub fn esc_hint_mode(current: FooterMode, is_task_running: bool) -> (r: FooterMode)
    ensures
        r == (if is_task_running {
            current
        } else {
            FooterMode::EscHint
        }),
{
    if is_task_running {
        current
    } else {
        FooterMode::EscHint
    }
}

/// Ordinary activity dismisses the transient modes — the escape hint, the
/// overlay and the quit reminder fall back to the summary; the summary
/// and the context-only mode persist.
pub fn reset_mode_after_activity(current: FooterMode) -> (r: FooterMode)
    ensures
        r == (if current is EscHint || current is ShortcutOverlay
            || current is QuitShortcutReminder {
            FooterMode::ShortcutSummary
        } else {
            current
        }),
{
    match current {
        FooterMode::EscHint | FooterMode::ShortcutOverlay | FooterMode::QuitShortcutReminder => {
            FooterMode::ShortcutSummary
        },
        other => other,
    }
}

/// The UI state a shortcut's visibility may depend on.
#[derive(Clone, Copy, Debug, PartialEq, Eq, Structural)]
pub struct ShortcutsState {
    pub use_shift_enter_hint: bool,
    pub esc_backtrack_hint: bool,
    pub steer_enabled: bool,
}

/// When one binding of a shortcut is shown.
#[derive(Clone, Copy, Debug, PartialEq, Eq, Structural)]
pub enum DisplayCondition {
    Always,
    WhenShiftEnterHint,
    WhenNotShiftEnterHint,
}

impl DisplayCondition {
    /// Whether the condition holds in the given state.
    pub fn matches(self, state: ShortcutsState) -> (r: bool)
        ensures
            r == (match self {
                DisplayCondition::Always => true,
                DisplayCondition::WhenShiftEnterHint => state.use_shift_enter_hint,
                DisplayCondition::WhenNotShiftEnterHint => !state.use_shift_enter_hint,
            }),
    {
        match self {
            DisplayCondition::Always => true,
            DisplayCondition::WhenShiftEnterHint => state.use_shift_enter_hint,
            DisplayCondition::WhenNotShiftEnterHint => !state.use_shift_enter_hint,
        }
    }
}

} // verus!
