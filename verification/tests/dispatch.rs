use dailywork::dispatch::{
    dispatch, handle_menu_event, parse_menu_id, MenuAction, MenuOutcome, WindowOp,
};
use dailywork::events::Notification;

#[test]
fn every_recognized_identifier_maps_to_its_action() {
    assert_eq!(parse_menu_id("quit"), Some(MenuAction::Quit));
    assert_eq!(parse_menu_id("about"), Some(MenuAction::About));
    assert_eq!(parse_menu_id("open"), Some(MenuAction::Open));
    assert_eq!(parse_menu_id("save"), Some(MenuAction::Save));
    assert_eq!(parse_menu_id("hide"), Some(MenuAction::Hide));
    assert_eq!(parse_menu_id("minimize"), Some(MenuAction::Minimize));
    assert_eq!(parse_menu_id("close"), Some(MenuAction::Close));
    assert_eq!(parse_menu_id("fullscreen"), Some(MenuAction::Fullscreen));
    assert_eq!(parse_menu_id("undo"), Some(MenuAction::Undo));
    assert_eq!(parse_menu_id("redo"), Some(MenuAction::Redo));
    assert_eq!(parse_menu_id("cut"), Some(MenuAction::Cut));
    assert_eq!(parse_menu_id("copy"), Some(MenuAction::Copy));
    assert_eq!(parse_menu_id("paste"), Some(MenuAction::Paste));
    assert_eq!(parse_menu_id("select_all"), Some(MenuAction::SelectAll));
}

#[test]
fn unrecognized_identifiers_are_ignored() {
    assert_eq!(parse_menu_id(""), None);
    assert_eq!(parse_menu_id("QUIT"), None);
    assert_eq!(parse_menu_id("quitt"), None);
    assert_eq!(parse_menu_id("select-all"), None);
    assert_eq!(parse_menu_id("menu-open"), None);
    assert_eq!(parse_menu_id("nonsense"), None);
    assert_eq!(handle_menu_event("fullscren"), None);
    assert_eq!(handle_menu_event("한글"), None);
}

#[test]
fn structural_actions_have_direct_outcomes() {
    assert_eq!(dispatch(MenuAction::Quit), MenuOutcome::Exit(0));
    assert_eq!(dispatch(MenuAction::About), MenuOutcome::ShowAbout);
    assert_eq!(dispatch(MenuAction::Hide), MenuOutcome::Window(WindowOp::Hide));
    assert_eq!(dispatch(MenuAction::Minimize), MenuOutcome::Window(WindowOp::Minimize));
    assert_eq!(dispatch(MenuAction::Close), MenuOutcome::Window(WindowOp::Close));
    assert_eq!(dispatch(MenuAction::Fullscreen), MenuOutcome::Window(WindowOp::ToggleFullscreen));
}

#[test]
fn pass_through_actions_notify_the_front_end() {
    assert_eq!(handle_menu_event("open"), Some(MenuOutcome::Notify(Notification::MenuOpen)));
    assert_eq!(handle_menu_event("save"), Some(MenuOutcome::Notify(Notification::MenuSave)));
    assert_eq!(handle_menu_event("undo"), Some(MenuOutcome::Notify(Notification::MenuUndo)));
    assert_eq!(handle_menu_event("redo"), Some(MenuOutcome::Notify(Notification::MenuRedo)));
    assert_eq!(handle_menu_event("cut"), Some(MenuOutcome::Notify(Notification::MenuCut)));
    assert_eq!(handle_menu_event("copy"), Some(MenuOutcome::Notify(Notification::MenuCopy)));
    assert_eq!(handle_menu_event("paste"), Some(MenuOutcome::Notify(Notification::MenuPaste)));
    assert_eq!(
        handle_menu_event("select_all"),
        Some(MenuOutcome::Notify(Notification::MenuSelectAll))
    );
}

#[test]
fn quit_exits_the_process_with_code_zero() {
    assert_eq!(handle_menu_event("quit"), Some(MenuOutcome::Exit(0)));
}

#[test]
fn notification_event_names_are_exact() {
    assert_eq!(Notification::ConfirmClose.event_name(), "confirm-close");
    assert_eq!(Notification::MenuOpen.event_name(), "menu-open");
    assert_eq!(Notification::MenuSave.event_name(), "menu-save");
    assert_eq!(Notification::MenuUndo.event_name(), "menu-undo");
    assert_eq!(Notification::MenuRedo.event_name(), "menu-redo");
    assert_eq!(Notification::MenuCut.event_name(), "menu-cut");
    assert_eq!(Notification::MenuCopy.event_name(), "menu-copy");
    assert_eq!(Notification::MenuPaste.event_name(), "menu-paste");
    assert_eq!(Notification::MenuSelectAll.event_name(), "menu-select-all");
}
