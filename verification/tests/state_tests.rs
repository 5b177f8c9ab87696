use gitsy::config::GitsyConfig;
use gitsy::gateway::GatewayError;
use gitsy::state::{confirm_prompt, Action, App, Key, Screen, StatusMessage};

fn fresh_app() -> App {
    App::new(
        "/repo".to_string(),
        GitsyConfig::new("worktrees".to_string()),
    )
}

fn message_text(app: &App) -> &str {
    app.message.as_ref().expect("a message should be set").text()
}

#[test]
fn create_flow_notes_branch_clears_input_and_stays() {
    let mut app = fresh_app();
    assert!(matches!(app.screen, Screen::MainMenu));
    assert_eq!(app.main_menu.selected, 0);
    let a = app.handle_key_event(Key::Enter);
    assert!(matches!(a, Action::Idle));
    assert!(matches!(app.screen, Screen::CreateBranch));
    for c in "feature-x".chars() {
        app.handle_key_event(Key::Char(c));
    }
    let a = app.handle_key_event(Key::Enter);
    match a {
        Action::CreateWorktree(name) => assert_eq!(name, "feature-x"),
        other => panic!("expected a creation action, got {:?}", other),
    }
    app.apply_create_result(Ok(()));
    assert!(matches!(app.screen, Screen::CreateBranch));
    assert_eq!(
        message_text(&app),
        "Successfully created worktree for branch 'feature-x'"
    );
    assert!(matches!(
        app.message,
        Some(StatusMessage::Success(_))
    ));
    assert!(app.input.text.is_empty());
    assert_eq!(app.input.cursor, 0);
}

#[test]
fn create_failure_keeps_typed_input_and_shows_error() {
    let mut app = fresh_app();
    app.handle_key_event(Key::Enter);
    for c in "taken".chars() {
        app.handle_key_event(Key::Char(c));
    }
    app.handle_key_event(Key::Enter);
    app.apply_create_result(Err(GatewayError::CommandFailed(
        "git worktree add failed: exists".to_string(),
    )));
    assert!(matches!(app.screen, Screen::CreateBranch));
    assert_eq!(message_text(&app), "Error: git worktree add failed: exists");
    assert!(app.message.as_ref().unwrap().is_error());
    assert_eq!(app.input.text_string(), "taken");
}

#[test]
fn empty_input_does_not_ask_for_creation() {
    let mut app = fresh_app();
    app.handle_key_event(Key::Enter);
    let a = app.handle_key_event(Key::Enter);
    assert!(matches!(a, Action::Idle));
}

#[test]
fn empty_branch_list_stays_on_menu_with_note() {
    let mut app = fresh_app();
    app.handle_key_event(Key::Down);
    assert_eq!(app.main_menu.selected, 1);
    let a = app.handle_key_event(Key::Enter);
    assert!(matches!(a, Action::LoadBranches));
    app.apply_branches_loaded(Ok(Vec::new()));
    assert!(matches!(app.screen, Screen::MainMenu));
    assert_eq!(message_text(&app), "No branches with worktrees found");
}

#[test]
fn load_failure_stays_on_menu_with_error() {
    let mut app = fresh_app();
    app.handle_key_event(Key::Down);
    app.handle_key_event(Key::Enter);
    app.apply_branches_loaded(Err(GatewayError::CommandFailed(
        "Failed to list worktrees".to_string(),
    )));
    assert!(matches!(app.screen, Screen::MainMenu));
    assert_eq!(message_text(&app), "Error: Failed to list worktrees");
}

#[test]
fn delete_flow_confirms_out_of_sync_branch_and_resolves_either_way() {
    let mut app = fresh_app();
    app.handle_key_event(Key::Down);
    app.handle_key_event(Key::Enter);
    app.apply_branches_loaded(Ok(vec!["old-feature".to_string(), "new-one".to_string()]));
    assert!(matches!(app.screen, Screen::DeleteBranch));
    assert_eq!(app.selected_branch, 0);

    // The selected branch is out of sync: the confirmation screen records it.
    let a = app.handle_key_event(Key::Enter);
    match a {
        Action::CheckSync(name) => assert_eq!(name, "old-feature"),
        other => panic!("expected a sync query, got {:?}", other),
    }
    app.apply_sync_result(Ok(false));
    assert!(matches!(app.screen, Screen::ConfirmDelete));
    let pending = app.pending.expect("a pending deletion should be recorded");
    assert!(pending.branch_out_of_sync);
    assert_eq!(pending.branch_index, 0);

    // 'n' returns to the delete screen with the list unchanged.
    let a = app.handle_key_event(Key::Char('n'));
    assert!(matches!(a, Action::Idle));
    assert!(matches!(app.screen, Screen::DeleteBranch));
    assert_eq!(app.branches.len(), 2);
    assert_eq!(app.branches[0], "old-feature");

    // 'y' asks for the removal; the menu returns and the message names the
    // branch on success.
    app.handle_key_event(Key::Enter);
    app.apply_sync_result(Ok(false));
    let a = app.handle_key_event(Key::Char('y'));
    match a {
        Action::RemoveWorktree(name) => assert_eq!(name, "old-feature"),
        other => panic!("expected a removal action, got {:?}", other),
    }
    app.apply_remove_result(Ok(()));
    assert!(matches!(app.screen, Screen::MainMenu));
    assert!(app.pending.is_none());
    assert!(message_text(&app).contains("old-feature"));

    // The same flow with a failing removal still names the branch.
    let mut app = fresh_app();
    app.handle_key_event(Key::Down);
    app.handle_key_event(Key::Enter);
    app.apply_branches_loaded(Ok(vec!["old-feature".to_string()]));
    app.handle_key_event(Key::Enter);
    app.apply_sync_result(Ok(false));
    app.handle_key_event(Key::Char('y'));
    app.apply_remove_result(Err(GatewayError::CommandFailed(
        "git worktree remove failed: dirty".to_string(),
    )));
    assert!(matches!(app.screen, Screen::MainMenu));
    assert!(message_text(&app).contains("old-feature"));
    assert!(app.message.as_ref().unwrap().is_error());
}

#[test]
fn sync_query_failure_stays_on_delete_screen() {
    let mut app = fresh_app();
    app.handle_key_event(Key::Down);
    app.handle_key_event(Key::Enter);
    app.apply_branches_loaded(Ok(vec!["a".to_string()]));
    app.handle_key_event(Key::Enter);
    app.apply_sync_result(Err(GatewayError::ResolutionFailed));
    assert!(matches!(app.screen, Screen::DeleteBranch));
    assert!(app.pending.is_none());
    assert_eq!(message_text(&app), "Error: branch resolution failed");
}

#[test]
fn delete_selection_wraps_both_ways() {
    let mut app = fresh_app();
    app.handle_key_event(Key::Down);
    app.handle_key_event(Key::Enter);
    app.apply_branches_loaded(Ok(vec![
        "a".to_string(),
        "b".to_string(),
        "c".to_string(),
    ]));
    app.handle_key_event(Key::Up);
    assert_eq!(app.selected_branch, 2);
    app.handle_key_event(Key::Down);
    assert_eq!(app.selected_branch, 0);
    app.handle_key_event(Key::Char('j'));
    assert_eq!(app.selected_branch, 1);
    app.handle_key_event(Key::Char('k'));
    assert_eq!(app.selected_branch, 0);
}

#[test]
fn escape_returns_to_menu_and_clears_message() {
    let mut app = fresh_app();
    app.handle_key_event(Key::Enter);
    app.handle_key_event(Key::Char('x'));
    app.handle_key_event(Key::Enter);
    app.apply_create_result(Err(GatewayError::CommandFailed("no".to_string())));
    assert!(app.message.is_some());
    let a = app.handle_key_event(Key::Esc);
    assert!(matches!(a, Action::Idle));
    assert!(matches!(app.screen, Screen::MainMenu));
    assert!(app.message.is_none());
}

#[test]
fn exit_item_asks_to_leave() {
    let mut app = fresh_app();
    app.handle_key_event(Key::Up);
    assert_eq!(app.main_menu.selected, 2);
    let a = app.handle_key_event(Key::Enter);
    assert!(matches!(a, Action::Exit));
}

#[test]
fn menu_navigation_in_app_wraps() {
    let mut app = fresh_app();
    app.handle_key_event(Key::Char('k'));
    assert_eq!(app.main_menu.selected, 2);
    app.handle_key_event(Key::Char('j'));
    assert_eq!(app.main_menu.selected, 0);
}

#[test]
fn confirm_prompt_names_branch_and_warns_when_out_of_sync() {
    assert_eq!(
        confirm_prompt("old-feature", true),
        "WARNING: Branch 'old-feature' is NOT in sync with origin!\n\nAre you sure you want to delete this worktree? (y/N)"
    );
    assert_eq!(
        confirm_prompt("old-feature", false),
        "Branch 'old-feature' is in sync with origin.\n\nAre you sure you want to delete this worktree? (y/N)"
    );
}

#[test]
fn escape_from_delete_screen_returns_to_menu() {
    let mut app = fresh_app();
    app.handle_key_event(Key::Down);
    app.handle_key_event(Key::Enter);
    app.apply_branches_loaded(Ok(vec!["a".to_string()]));
    assert!(matches!(app.screen, Screen::DeleteBranch));
    app.handle_key_event(Key::Esc);
    assert!(matches!(app.screen, Screen::MainMenu));
    assert!(app.message.is_none());
}
