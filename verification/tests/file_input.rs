use zerium::file_input::{imported_matches, FileLoadAction, FileLoadState, ProbeResult};

#[test]
fn a_choice_starts_only_when_idle_and_possible() {
    let mut state = FileLoadState::new();
    assert!(!state.is_loading());
    assert!(!state.begin(false));
    assert!(!state.is_loading());
    assert!(state.begin(true));
    assert!(state.is_loading());
    assert!(!state.begin(true));
}

#[test]
fn picker_errors_end_the_choice_with_a_message() {
    let mut state = FileLoadState::new();
    state.begin(true);
    let message = state.picker_failed("denied");
    assert_eq!(message, "ファイルを選択できません: denied");
    assert!(!state.is_loading());
    assert_eq!(state.error(), Some(message.as_str()));

    state.begin(true);
    assert_eq!(state.error(), None);
    let message = state.picker_unanswered("closed");
    assert_eq!(message, "ファイル選択ダイアログから応答を取得できません: closed");
    assert_eq!(state.error(), Some(message.as_str()));
}

#[test]
fn cancelling_keeps_the_previous_error() {
    let mut state = FileLoadState::new();
    state.begin(true);
    state.picker_failed("x");
    state.picker_cancelled();
    assert!(!state.is_loading());
    assert!(state.error().is_some());
}

#[test]
fn a_matching_file_is_applied() {
    let mut state = FileLoadState::new();
    state.begin(true);
    assert!(matches!(state.probe_finished(ProbeResult::Matched), FileLoadAction::Apply));
    assert!(!state.is_loading());
    assert_eq!(state.apply_finished(None), None);
    assert_eq!(state.error(), None);
}

#[test]
fn a_failed_apply_reports_its_error() {
    let mut state = FileLoadState::new();
    state.begin(true);
    state.probe_finished(ProbeResult::Matched);
    assert_eq!(state.apply_finished(Some("disk full".to_string())), Some("disk full".to_string()));
    assert_eq!(state.error(), Some("disk full"));
}

#[test]
fn mismatched_and_unreadable_files_are_reported() {
    let mut state = FileLoadState::new();
    state.begin(true);
    match state.probe_finished(ProbeResult::Mismatched) {
        FileLoadAction::Notify(message) => {
            assert_eq!(message, "選択したファイルの種類がこのアイテムと一致しません");
            assert_eq!(state.error(), Some(message.as_str()));
        }
        FileLoadAction::Apply => panic!("a mismatched file must not be applied"),
    }
    state.begin(true);
    match state.probe_finished(ProbeResult::Failed("unreadable".to_string())) {
        FileLoadAction::Notify(message) => assert_eq!(message, "unreadable"),
        FileLoadAction::Apply => panic!("an unreadable file must not be applied"),
    }
    assert_eq!(state.error(), Some("unreadable"));
}

#[test]
fn session_and_selection_changes_clear_state() {
    let mut state = FileLoadState::new();
    state.begin(true);
    state.selection_changed();
    assert!(state.is_loading());
    state.picker_failed("x");
    state.selection_changed();
    assert_eq!(state.error(), None);
    state.begin(true);
    state.session_changed();
    assert!(!state.is_loading());
    assert_eq!(state.error(), None);
}

#[test]
fn imported_file_must_match_plugin_item_and_input() {
    assert!(imported_matches("p", "i", "f", "p", "i", "f"));
    assert!(!imported_matches("p", "i", "f", "q", "i", "f"));
    assert!(!imported_matches("p", "i", "f", "p", "j", "f"));
    assert!(!imported_matches("p", "i", "f", "p", "i", "g"));
}
