use music_manager::{Action, Actions, Key};

#[test]
fn should_find_action_by_key() {
    let actions: Actions = vec![Action::Quit].into();
    let result = actions.find(Key::Ctrl('c'));
    assert_eq!(result, Some(Action::Quit));
}

#[test]
fn should_find_action_by_key_not_found() {
    let actions: Actions = vec![Action::Quit].into();
    let result = actions.find(Key::Alt('w'));
    assert_eq!(result, None);
}

#[test]
fn should_create_actions_from_vec() {
    let _actions: Actions = vec![Action::Quit].into();
}

#[test]
fn shared_key_gives_one_conflict_naming_both() {
    let (actions, conflicts) = Actions::build(vec![Action::LogExitPageMode, Action::SwitchToPreviousWidget]);
    assert_eq!(conflicts.len(), 1);
    assert_eq!(conflicts[0].key, Key::Esc);
    assert_eq!(conflicts[0].actions, vec![Action::LogExitPageMode, Action::SwitchToPreviousWidget]);
    assert_eq!(actions.find(Key::Esc), Some(Action::LogExitPageMode));
}

#[test]
fn resolution_follows_registration_order() {
    let actions: Actions = vec![Action::SwitchToPreviousWidget, Action::LogExitPageMode].into();
    assert_eq!(actions.find(Key::Esc), Some(Action::SwitchToPreviousWidget));
}

#[test]
fn repeated_action_conflicts_with_itself() {
    let (_, conflicts) = Actions::build(vec![Action::Quit, Action::Quit, Action::LogToggleHideTargets]);
    assert_eq!(conflicts.len(), 2);
    for c in &conflicts {
        assert!(c.key == Key::Ctrl('c') || c.key == Key::Char('q'));
        assert_eq!(c.actions, vec![Action::Quit, Action::Quit]);
    }
}

#[test]
fn no_conflict_without_shared_keys() {
    let (actions, conflicts) = Actions::build(vec![Action::Quit, Action::SelectUp, Action::SelectDown]);
    assert!(conflicts.is_empty());
    assert!(actions.conflicts().is_empty());
    assert_eq!(actions.actions(), &[Action::Quit, Action::SelectUp, Action::SelectDown]);
}

#[test]
fn keys_and_names() {
    assert_eq!(Action::Quit.keys(), vec![Key::Ctrl('c'), Key::Char('q')]);
    assert_eq!(Action::SaveTagsToFile.keys(), vec![Key::Char('s')]);
    assert_eq!(Action::Enter.name(), "EnterKey");
    assert_eq!(Action::LogIncreaseCapture.name(), "LogIncreaseCaptured");
    assert_eq!(Action::iterator(), vec![Action::Quit, Action::LogToggleHideSelector]);
    assert!(Action::SelectDown.is_bound_to(Key::Char('j')));
    assert!(!Action::SelectDown.is_bound_to(Key::Char('k')));
}

#[test]
fn help_rows_name_each_action_once() {
    let actions: Actions = vec![Action::Quit, Action::Enter].into();
    assert_eq!(
        actions.help_rows(),
        vec![
            (Key::Ctrl('c'), Some(Action::Quit)),
            (Key::Char('q'), None),
            (Key::Enter, Some(Action::Enter)),
        ]
    );
}

#[test]
fn from_keeps_actions_and_reports_conflicts() {
    let actions: Actions = vec![Action::LogExitPageMode, Action::SwitchToPreviousWidget].into();
    assert_eq!(actions.actions(), &[Action::LogExitPageMode, Action::SwitchToPreviousWidget]);
    let conflicts = actions.conflicts();
    assert_eq!(conflicts.len(), 1);
    assert_eq!(conflicts[0].key, Key::Esc);
    assert_eq!(conflicts[0].actions, vec![Action::LogExitPageMode, Action::SwitchToPreviousWidget]);
}
