use dualpane::App;
use dualpane::Command;
use dualpane::CommandAction;
use dualpane::Config;
use dualpane::DirPath;
use dualpane::FileItem;
use dualpane::Focus;
use dualpane::StatusMessage;
use dualpane::TransferOutcome;

fn path(parts: &[&str]) -> DirPath {
    DirPath::from_components(parts.iter().map(|p| p.to_string()).collect())
}

fn parts(p: &DirPath) -> Vec<String> {
    p.components().clone()
}

fn names(app: &App, side: Focus) -> Vec<String> {
    app.pane(side).items().iter().map(|it| it.name().to_string()).collect()
}

fn sample_app() -> App {
    App::new(
        Config::new(path(&["home"]), path(&["mnt", "c"])),
        vec![
            FileItem::new("docs".to_string(), true),
            FileItem::new("todo.txt".to_string(), false),
        ],
        vec![FileItem::new("Desktop".to_string(), true)],
    )
}

#[test]
fn a_fresh_app_focuses_the_left_pane() {
    let app = sample_app();
    assert!(!app.should_exit());
    assert_eq!(app.focus(), Focus::Wsl);
    assert!(app.status_message().is_none());
    assert_eq!(names(&app, Focus::Wsl), vec!["..", "docs", "todo.txt"]);
    assert_eq!(names(&app, Focus::Windows), vec!["..", "Desktop"]);
    assert_eq!(parts(app.pane(Focus::Wsl).current_path()), vec!["home"]);
    assert_eq!(parts(app.pane(Focus::Windows).current_path()), vec!["mnt", "c"]);
}

#[test]
fn quit_sets_the_exit_flag() {
    let mut app = sample_app();
    let action = app.begin_command(Command::Quit);
    assert!(matches!(action, CommandAction::Done));
    assert!(app.should_exit());
}

#[test]
fn switch_focus_is_a_pure_toggle() {
    let mut app = sample_app();
    app.begin_command(Command::SwitchFocus);
    assert_eq!(app.focus(), Focus::Windows);
    app.begin_command(Command::SwitchFocus);
    assert_eq!(app.focus(), Focus::Wsl);
    // Neither listing moved.
    assert_eq!(app.pane(Focus::Wsl).selected_index(), Some(0));
    assert_eq!(app.pane(Focus::Windows).selected_index(), Some(0));
}

#[test]
fn selection_commands_go_to_the_focused_pane() {
    let mut app = sample_app();
    app.begin_command(Command::SelectNext);
    assert_eq!(app.pane(Focus::Wsl).selected_index(), Some(1));
    assert_eq!(app.pane(Focus::Windows).selected_index(), Some(0));

    app.begin_command(Command::SwitchFocus);
    app.begin_command(Command::SelectNext);
    assert_eq!(app.pane(Focus::Wsl).selected_index(), Some(1));
    assert_eq!(app.pane(Focus::Windows).selected_index(), Some(1));

    app.begin_command(Command::SelectPrevious);
    assert_eq!(app.pane(Focus::Windows).selected_index(), Some(0));
}

#[test]
fn enter_asks_for_the_target_listing() {
    let mut app = sample_app();
    app.begin_command(Command::SelectNext); // onto "docs"
    let action = app.begin_command(Command::Enter);
    let target = match action {
        CommandAction::ReadListing(t) => t,
        _ => panic!("entering a directory asks for its listing"),
    };
    assert_eq!(parts(&target), vec!["home", "docs"]);
    app.finish_navigation(target, vec![FileItem::new("inner.txt".to_string(), false)]);
    assert_eq!(parts(app.pane(Focus::Wsl).current_path()), vec!["home", "docs"]);
    assert_eq!(names(&app, Focus::Wsl), vec!["..", "inner.txt"]);
    assert_eq!(app.pane(Focus::Wsl).selected_index(), Some(0));
}

#[test]
fn entering_a_file_is_silently_done() {
    let mut app = sample_app();
    app.begin_command(Command::SelectNext);
    app.begin_command(Command::SelectNext); // onto "todo.txt"
    let action = app.begin_command(Command::Enter);
    assert!(matches!(action, CommandAction::Done));
    assert_eq!(parts(app.pane(Focus::Wsl).current_path()), vec!["home"]);
}

#[test]
fn navigate_up_asks_for_the_parent_listing() {
    let mut app = sample_app();
    app.begin_command(Command::SwitchFocus);
    let action = app.begin_command(Command::NavigateUp);
    let target = match action {
        CommandAction::ReadListing(t) => t,
        _ => panic!("a nested path has a parent"),
    };
    assert_eq!(parts(&target), vec!["mnt"]);
    app.finish_navigation(target, vec![FileItem::new("c".to_string(), true)]);
    assert_eq!(parts(app.pane(Focus::Windows).current_path()), vec!["mnt"]);
    // The unfocused pane is untouched.
    assert_eq!(parts(app.pane(Focus::Wsl).current_path()), vec!["home"]);
}

#[test]
fn navigate_up_at_root_is_silently_done() {
    let mut app = App::new(Config::new(DirPath::root(), path(&["d"])), vec![], vec![]);
    let action = app.begin_command(Command::NavigateUp);
    assert!(matches!(action, CommandAction::Done));
    assert!(app.pane(Focus::Wsl).current_path().is_root());
}

#[test]
fn transfer_left_to_right_resolves_across_panes() {
    let mut app = sample_app();
    app.begin_command(Command::SelectNext);
    app.begin_command(Command::SelectNext); // onto "todo.txt"
    app.begin_command(Command::SwitchFocus);
    app.begin_command(Command::SelectNext); // dest onto "Desktop"
    app.begin_command(Command::SwitchFocus);

    let action = app.begin_command(Command::TransferLeftToRight);
    let req = match action {
        CommandAction::RunTransfer(r) => r,
        _ => panic!("a selected file resolves"),
    };
    assert_eq!(req.item_name, "todo.txt");
    assert_eq!(parts(&req.source_path), vec!["home", "todo.txt"]);
    assert_eq!(parts(&req.dest_path), vec!["mnt", "c", "Desktop", "todo.txt"]);

    app.finish_transfer(Focus::Wsl, &req.item_name, &TransferOutcome::Success);
    let status = app.status_message().expect("a finished transfer leaves a status");
    assert_eq!(status.text().as_str(), "Exported todo.txt to Windows");
}

#[test]
fn transfer_right_to_left_is_symmetric() {
    let mut app = sample_app();
    app.begin_command(Command::SwitchFocus);
    app.begin_command(Command::SelectNext); // source onto "Desktop"
    let action = app.begin_command(Command::TransferRightToLeft);
    let req = match action {
        CommandAction::RunTransfer(r) => r,
        _ => panic!("a selected directory resolves"),
    };
    assert_eq!(req.item_name, "Desktop");
    assert_eq!(parts(&req.source_path), vec!["mnt", "c", "Desktop"]);
    // The left pane still has its sentinel selected, so the item lands in
    // the left pane's current directory.
    assert_eq!(parts(&req.dest_path), vec!["home", "Desktop"]);
}

#[test]
fn failed_transfer_is_non_fatal() {
    let mut app = sample_app();
    app.begin_command(Command::SelectNext);
    let wsl_before = names(&app, Focus::Wsl);
    let windows_before = names(&app, Focus::Windows);

    app.finish_transfer(
        Focus::Wsl,
        &"docs".to_string(),
        &TransferOutcome::EngineFailure("cp: permission denied".to_string()),
    );

    // Both panes' listings are unchanged and the diagnostic shows.
    assert_eq!(names(&app, Focus::Wsl), wsl_before);
    assert_eq!(names(&app, Focus::Windows), windows_before);
    assert_eq!(app.pane(Focus::Wsl).selected_index(), Some(1));
    let text = app.status_message().unwrap().text().clone();
    assert!(text.contains("cp: permission denied"));
    assert!(!app.should_exit());

    // The next command is still processed normally.
    let action = app.begin_command(Command::SelectNext);
    assert!(matches!(action, CommandAction::Done));
    assert_eq!(app.pane(Focus::Wsl).selected_index(), Some(2));
}

#[test]
fn status_expires_after_exactly_its_tick_count() {
    let mut app = sample_app();
    let ticks: u64 = 7;
    app.show_status(StatusMessage::with_ticks("copied".to_string(), ticks));

    // The first T - 1 iterations still show the message.
    for _ in 0..(ticks - 1) {
        assert!(app.status_message().is_some());
        app.tick_status();
    }
    assert!(app.status_message().is_some());
    assert_eq!(app.status_message().unwrap().remaining_ticks(), 1);

    // The T-th iteration clears it; after that it stays empty.
    app.tick_status();
    assert!(app.status_message().is_none());
    app.tick_status();
    assert!(app.status_message().is_none());
}

#[test]
fn fresh_transfer_status_lives_the_default_lifetime() {
    let mut app = sample_app();
    app.begin_command(Command::SelectNext);
    app.finish_transfer(Focus::Wsl, &"docs".to_string(), &TransferOutcome::Success);
    for _ in 0..49 {
        app.tick_status();
        assert!(app.status_message().is_some());
    }
    app.tick_status();
    assert!(app.status_message().is_none());
}
