use pty_supervisor::footer::esc_hint_mode;
use pty_supervisor::footer::reset_mode_after_activity;
use pty_supervisor::footer::toggle_shortcut_mode;
use pty_supervisor::footer::DisplayCondition;
use pty_supervisor::footer::FooterMode;
use pty_supervisor::footer::ShortcutsState;
use pty_supervisor::suggestions::Feature;
use pty_supervisor::suggestions::PromptSuggestionGate;
use pty_supervisor::suggestions::PromptSuggestionsSettings;
use pty_supervisor::userinput::any_question_lacks_options;
use pty_supervisor::userinput::prepare_questions;
use pty_supervisor::userinput::request_user_input_is_available_in_mode;
use pty_supervisor::userinput::request_user_input_tool_description;
use pty_supervisor::userinput::request_user_input_unavailable_message;
use pty_supervisor::userinput::FunctionCallError;
use pty_supervisor::userinput::ModeKind;
use pty_supervisor::userinput::RequestUserInputHandler;
use pty_supervisor::userinput::ToolKind;
use pty_supervisor::userinput::UserInputQuestion;

#[test]
fn request_user_input_mode_availability_is_all_modes() {
    assert_eq!(request_user_input_is_available_in_mode(ModeKind::Plan), true);
    assert_eq!(request_user_input_is_available_in_mode(ModeKind::Default), true);
    assert_eq!(request_user_input_is_available_in_mode(ModeKind::Execute), true);
    assert_eq!(
        request_user_input_is_available_in_mode(ModeKind::PairProgramming),
        true
    );
}

#[test]
fn request_user_input_unavailable_messages_are_none() {
    assert_eq!(request_user_input_unavailable_message(ModeKind::Plan), None);
    assert_eq!(request_user_input_unavailable_message(ModeKind::Default), None);
    assert_eq!(request_user_input_unavailable_message(ModeKind::Execute), None);
    assert_eq!(
        request_user_input_unavailable_message(ModeKind::PairProgramming),
        None
    );
}

#[test]
fn request_user_input_tool_description_mentions_all_modes() {
    assert_eq!(
        request_user_input_tool_description(),
        "Request user input for one to three short questions and wait for the response. This tool is available in all collaboration modes.".to_string()
    );
}

#[test]
fn handler_is_a_function_tool() {
    assert_eq!(RequestUserInputHandler.kind(), ToolKind::Function);
}

fn question(prompt: &str, options: Option<Vec<&str>>) -> UserInputQuestion {
    UserInputQuestion {
        prompt: prompt.to_string(),
        options: options.map(|o| o.iter().map(|s| s.to_string()).collect()),
        is_other: false,
    }
}

#[test]
fn questions_with_options_are_accepted_and_marked_is_other() {
    let questions = vec![
        question("tabs or spaces?", Some(vec!["tabs", "spaces"])),
        question("editor?", Some(vec!["vi"])),
    ];
    assert!(!any_question_lacks_options(&questions));
    let out = prepare_questions(questions).unwrap();
    assert_eq!(out.len(), 2);
    assert_eq!(out[0].prompt, "tabs or spaces?");
    assert_eq!(
        out[0].options,
        Some(vec!["tabs".to_string(), "spaces".to_string()])
    );
    assert!(out[0].is_other);
    assert_eq!(out[1].prompt, "editor?");
    assert!(out[1].is_other);
}

#[test]
fn a_question_without_options_is_rejected() {
    let questions = vec![
        question("tabs or spaces?", Some(vec!["tabs", "spaces"])),
        question("anything else?", None),
    ];
    assert!(any_question_lacks_options(&questions));
    let err = prepare_questions(questions).err().unwrap();
    assert!(matches!(
        err,
        FunctionCallError::RespondToModel(m)
            if m == "request_user_input requires non-empty options for every question"
    ));
}

#[test]
fn a_question_with_an_empty_option_list_is_rejected() {
    let questions = vec![question("editor?", Some(vec![]))];
    let err = prepare_questions(questions).err().unwrap();
    assert!(matches!(err, FunctionCallError::RespondToModel(_)));
}

#[test]
fn gate_allows_autorun_only_when_everything_lines_up() {
    let ready = PromptSuggestionGate {
        suggestions_enabled: true,
        autorun_enabled: true,
        intent: true,
        is_review_mode: false,
        task_running: false,
        composer_empty: true,
        no_modal_or_popup_active: true,
        queued_user_messages_empty: true,
    };
    assert!(ready.can_autorun());
    assert!(ready.can_open_view());

    assert!(!PromptSuggestionGate { autorun_enabled: false, ..ready }.can_autorun());
    assert!(!PromptSuggestionGate { intent: false, ..ready }.can_autorun());
    assert!(!PromptSuggestionGate { task_running: true, ..ready }.can_autorun());
    assert!(!PromptSuggestionGate { is_review_mode: true, ..ready }.can_autorun());
    assert!(!PromptSuggestionGate { queued_user_messages_empty: false, ..ready }.can_autorun());
}

#[test]
fn view_opens_without_autorun_or_intent() {
    let gate = PromptSuggestionGate {
        suggestions_enabled: true,
        autorun_enabled: false,
        intent: false,
        is_review_mode: false,
        task_running: false,
        composer_empty: true,
        no_modal_or_popup_active: true,
        queued_user_messages_empty: false,
    };
    assert!(gate.can_open_view());
    assert!(!gate.can_autorun());
    assert!(!PromptSuggestionGate { suggestions_enabled: false, ..gate }.can_open_view());
    assert!(!PromptSuggestionGate { composer_empty: false, ..gate }.can_open_view());
}

#[test]
fn disabling_suggestions_also_disables_autorun() {
    let settings = PromptSuggestionsSettings { enabled: true, autorun_enabled: true };
    let (next, updates) = settings.toggle_enabled();
    assert_eq!(next, PromptSuggestionsSettings { enabled: false, autorun_enabled: false });
    assert_eq!(
        updates,
        vec![
            (Feature::PromptSuggestions, false),
            (Feature::PromptSuggestionsAutorun, false),
        ]
    );
}

#[test]
fn enabling_suggestions_reports_one_update() {
    let settings = PromptSuggestionsSettings { enabled: false, autorun_enabled: false };
    let (next, updates) = settings.toggle_enabled();
    assert_eq!(next, PromptSuggestionsSettings { enabled: true, autorun_enabled: false });
    assert_eq!(updates, vec![(Feature::PromptSuggestions, true)]);
}

#[test]
fn enabling_autorun_enables_suggestions_first() {
    let settings = PromptSuggestionsSettings { enabled: false, autorun_enabled: false };
    let (next, updates) = settings.toggle_autorun();
    assert_eq!(next, PromptSuggestionsSettings { enabled: true, autorun_enabled: true });
    assert_eq!(
        updates,
        vec![
            (Feature::PromptSuggestions, true),
            (Feature::PromptSuggestionsAutorun, true),
        ]
    );
}

#[test]
fn disabling_autorun_alone_keeps_suggestions_on() {
    let settings = PromptSuggestionsSettings { enabled: true, autorun_enabled: true };
    let (next, updates) = settings.toggle_autorun();
    assert_eq!(next, PromptSuggestionsSettings { enabled: true, autorun_enabled: false });
    assert_eq!(updates, vec![(Feature::PromptSuggestionsAutorun, false)]);
}

#[test]
fn shortcut_toggle_respects_the_quit_reminder() {
    assert_eq!(
        toggle_shortcut_mode(FooterMode::QuitShortcutReminder, true),
        FooterMode::QuitShortcutReminder
    );
    assert_eq!(
        toggle_shortcut_mode(FooterMode::QuitShortcutReminder, false),
        FooterMode::ShortcutSummary
    );
    assert_eq!(
        toggle_shortcut_mode(FooterMode::ShortcutOverlay, false),
        FooterMode::ShortcutSummary
    );
    assert_eq!(
        toggle_shortcut_mode(FooterMode::ShortcutSummary, false),
        FooterMode::ShortcutOverlay
    );
    assert_eq!(
        toggle_shortcut_mode(FooterMode::ContextOnly, true),
        FooterMode::ShortcutOverlay
    );
}

#[test]
fn esc_hint_waits_for_the_task_to_finish() {
    assert_eq!(
        esc_hint_mode(FooterMode::ShortcutSummary, true),
        FooterMode::ShortcutSummary
    );
    assert_eq!(
        esc_hint_mode(FooterMode::ShortcutSummary, false),
        FooterMode::EscHint
    );
}

#[test]
fn activity_dismisses_transient_modes() {
    assert_eq!(
        reset_mode_after_activity(FooterMode::EscHint),
        FooterMode::ShortcutSummary
    );
    assert_eq!(
        reset_mode_after_activity(FooterMode::ShortcutOverlay),
        FooterMode::ShortcutSummary
    );
    assert_eq!(
        reset_mode_after_activity(FooterMode::QuitShortcutReminder),
        FooterMode::ShortcutSummary
    );
    assert_eq!(
        reset_mode_after_activity(FooterMode::ContextOnly),
        FooterMode::ContextOnly
    );
    assert_eq!(
        reset_mode_after_activity(FooterMode::ShortcutSummary),
        FooterMode::ShortcutSummary
    );
}

#[test]
fn display_conditions_follow_the_shift_enter_hint() {
    let with_hint = ShortcutsState {
        use_shift_enter_hint: true,
        esc_backtrack_hint: false,
        steer_enabled: false,
    };
    let without_hint = ShortcutsState { use_shift_enter_hint: false, ..with_hint };
    assert!(DisplayCondition::Always.matches(with_hint));
    assert!(DisplayCondition::Always.matches(without_hint));
    assert!(DisplayCondition::WhenShiftEnterHint.matches(with_hint));
    assert!(!DisplayCondition::WhenShiftEnterHint.matches(without_hint));
    assert!(!DisplayCondition::WhenNotShiftEnterHint.matches(with_hint));
    assert!(DisplayCondition::WhenNotShiftEnterHint.matches(without_hint));
}
