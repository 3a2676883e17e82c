//! Prompt-suggestion gating and settings.
//!
//! A gate bundles the UI conditions under which prompt suggestions may act
//! on their own or open their view. The settings hold the two persisted
//! switches; toggling them reports which feature switches changed, so the
//! host can persist them: disabling suggestions also disables autorun, and
//! enabling autorun first enables suggestions.

use vstd::prelude::*;

verus! {

/// A persistable feature switch.
#[derive(Clone, Copy, Debug, PartialEq, Eq, Structural)]
pub enum Feature {
    PromptSuggestions,
    PromptSuggestionsAutorun,
}

/// The conditions that gate prompt suggestions.
#[derive(Clone, Copy, Debug, PartialEq, Eq, Structural)]
pub struct PromptSuggestionGate {
    pub suggestions_enabled: bool,
    pub autorun_enabled: bool,
    pub intent: bool,
    pub is_review_mode: bool,
    pub task_running: bool,
    pub composer_empty: bool,
    pub no_modal_or_popup_active: bool,
    pub queued_user_messages_empty: bool,
}

impl PromptSuggestionGate {
    /// A suggestion may run on its own only when both switches are on,
    /// intent was detected, and the UI is idle: no review mode, no running
    /// task, an empty composer, no modal or popup, and no queued messages.
    pub fn can_autorun(self) -> (r: bool)
        ensures
            r == (self.autorun_enabled && self.suggestions_enabled && self.intent
                && !self.is_review_mode && !self.task_running && self.composer_empty
                && self.no_modal_or_popup_active && self.queued_user_messages_empty),
    {
        self.autorun_enabled && self.suggestions_enabled && self.intent && !self.is_review_mode
            && !self.task_running && self.composer_empty && self.no_modal_or_popup_active
            && self.queued_user_messages_empty
    }

    /// The suggestion view may open whenever suggestions are enabled and
    /// the UI is idle; autorun, intent and the queue do not matter here.
    pub fn can_open_view(self) -> (r: bool)
        ensures
            r == (self.suggestions_enabled && !self.is_review_mode && !self.task_running
                && self.composer_empty && self.no_modal_or_popup_active),
    {
        self.suggestions_enabled && !self.is_review_mode && !self.task_running
            && self.composer_empty && self.no_modal_or_popup_active
    }
}

impl Default for PromptSuggestionGate {
    /// Every condition starts off.
    fn default() -> (r: Self)
        ensures
            r == (PromptSuggestionGate {
                suggestions_enabled: false,
                autorun_enabled: false,
                intent: false,
                is_review_mode: false,
                task_running: false,
                composer_empty: false,
                no_modal_or_popup_active: false,
                queued_user_messages_empty: false,
            }),
    {
        PromptSuggestionGate {
            suggestions_enabled: false,
            autorun_enabled: false,
            intent: false,
            is_review_mode: false,
            task_running: false,
            composer_empty: false,
            no_modal_or_popup_active: false,
            queued_user_messages_empty: false,
        }
    }
}

/// The two persisted prompt-suggestion switches.
#[derive(Clone, Copy, Debug, PartialEq, Eq, Structural)]
pub struct PromptSuggestionsSettings {
    pub enabled: bool,
    pub autorun_enabled: bool,
}

impl PromptSuggestionsSettings {
    /// Flip the main switch. Turning it off also turns autorun off; the
    /// returned updates name every switch that changed, in the order the
    /// changes apply.
    pub fn toggle_enabled(self) -> (r: (PromptSuggestionsSettings, Vec<(Feature, bool)>))
        ensures
            r.0.enabled == !self.enabled,
            r.0.autorun_enabled == (self.autorun_enabled && !self.enabled),
            (self.enabled && self.autorun_enabled) ==> r.1@ == seq![
                (Feature::PromptSuggestions, false),
                (Feature::PromptSuggestionsAutorun, false),
            ],
            !(self.enabled && self.autorun_enabled) ==> r.1@ == seq![
                (Feature::PromptSuggestions, !self.enabled),
            ],
    {
        let enabled = !self.enabled;
        let mut updates: Vec<(Feature, bool)> = Vec::new();
        updates.push((Feature::PromptSuggestions, enabled));
        let autorun_enabled = if !enabled && self.autorun_enabled {
            updates.push((Feature::PromptSuggestionsAutorun, false));
            proof {
                assert(updates@ =~= seq![
                    (Feature::PromptSuggestions, false),
                    (Feature::PromptSuggestionsAutorun, false),
                ]);
            }
            false
        } else {
            proof {
                assert(updates@ =~= seq![(Feature::PromptSuggestions, enabled)]);
            }
            self.autorun_enabled
        };
        (PromptSuggestionsSettings { enabled, autorun_enabled }, updates)
    }

    /// Flip the autorun switch. If the main switch is off it is turned on
    /// first; the returned updates name every switch that changed, in the
    /// order the changes apply.
    pub fn toggle_autorun(self) -> (r: (PromptSuggestionsSettings, Vec<(Feature, bool)>))
        ensures
            r.0.enabled,
            r.0.autorun_enabled == !self.autorun_enabled,
            !self.enabled ==> r.1@ == seq![
                (Feature::PromptSuggestions, true),
                (Feature::PromptSuggestionsAutorun, !self.autorun_enabled),
            ],
            self.enabled ==> r.1@ == seq![
                (Feature::PromptSuggestionsAutorun, !self.autorun_enabled),
            ],
    {
        let mut updates: Vec<(Feature, bool)> = Vec::new();
        if !self.enabled {
            updates.push((Feature::PromptSuggestions, true));
        }
        let autorun_enabled = !self.autorun_enabled;
        updates.push((Feature::PromptSuggestionsAutorun, autorun_enabled));
        proof {
            if !self.enabled {
                assert(updates@ =~= seq![
                    (Feature::PromptSuggestions, true),
                    (Feature::PromptSuggestionsAutorun, autorun_enabled),
                ]);
            } else {
                assert(updates@ =~= seq![(Feature::PromptSuggestionsAutorun, autorun_enabled)]);
            }
        }
        (PromptSuggestionsSettings { enabled: true, autorun_enabled }, updates)
    }
}

impl Default for PromptSuggestionsSettings {
    /// Both switches start off.
    fn default() -> (r: Self)
        ensures
            r == (PromptSuggestionsSettings { enabled: false, autorun_enabled: false }),
    {
        PromptSuggestionsSettings { enabled: false, autorun_enabled: false }
    }
}

} // verus!
