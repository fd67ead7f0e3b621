//! The menu-event dispatcher: a total map from menu-item identifier to
//! action, and from action to its observable outcome.
//!
//! Recognized identifiers map to exactly one action each; unrecognized
//! identifiers are silently ignored, on purpose, so that menu items added by
//! future platform menu templates stay harmless.

use crate::events::Notification;
use crate::text::str_eq;
use vstd::prelude::*;

verus! {

/// An action selected by a recognized menu-item identifier.
#[derive(Clone, Copy, Debug, PartialEq, Eq, Structural)]
pub enum MenuAction {
    /// Quit the process.
    Quit,
    /// Show the platform-native information dialog.
    About,
    /// Ask the front-end to open a document.
    Open,
    /// Ask the front-end to save the document.
    Save,
    /// Hide the window.
    Hide,
    /// Minimize the window.
    Minimize,
    /// Close the window.
    Close,
    /// Toggle the window's fullscreen state.
    Fullscreen,
    /// Ask the front-end to undo.
    Undo,
    /// Ask the front-end to redo.
    Redo,
    /// Ask the front-end to cut the selection.
    Cut,
    /// Ask the front-end to copy the selection.
    Copy,
    /// Ask the front-end to paste the clipboard.
    Paste,
    /// Ask the front-end to select everything.
    SelectAll,
}

/// A window-level operation performed directly on the platform window.
#[derive(Clone, Copy, Debug, PartialEq, Eq, Structural)]
pub enum WindowOp {
    /// Hide the window.
    Hide,
    /// Minimize the window.
    Minimize,
    /// Request that the window be closed (the close-confirmation gate still
    /// intercepts the request).
    Close,
    /// Toggle the window's fullscreen state.
    ToggleFullscreen,
}

/// The observable outcome of dispatching one menu action.
#[derive(Clone, Copy, Debug, PartialEq, Eq, Structural)]
pub enum MenuOutcome {
    /// Exit the process with the given code.
    Exit(i32),
    /// Show the platform-native information dialog.
    ShowAbout,
    /// Perform an operation on the window.
    Window(WindowOp),
    /// Forward a named notification to the front-end view, with no payload.
    Notify(Notification),
}

/// The action a menu-item identifier selects, or `None` for an identifier
/// the dispatcher does not recognize.
pub open spec fn action_for(id: Seq<char>) -> Option<MenuAction> {
    if id == "quit"@ {
        Some(MenuAction::Quit)
    } else if id == "about"@ {
        Some(MenuAction::About)
    } else if id == "open"@ {
        Some(MenuAction::Open)
    } else if id == "save"@ {
        Some(MenuAction::Save)
    } else if id == "hide"@ {
        Some(MenuAction::Hide)
    } else if id == "minimize"@ {
        Some(MenuAction::Minimize)
    } else if id == "close"@ {
        Some(MenuAction::Close)
    } else if id == "fullscreen"@ {
        Some(MenuAction::Fullscreen)
    } else if id == "undo"@ {
        Some(MenuAction::Undo)
    } else if id == "redo"@ {
        Some(MenuAction::Redo)
    } else if id == "cut"@ {
        Some(MenuAction::Cut)
    } else if id == "copy"@ {
        Some(MenuAction::Copy)
    } else if id == "paste"@ {
        Some(MenuAction::Paste)
    } else if id == "select_all"@ {
        Some(MenuAction::SelectAll)
    } else {
        None
    }
}

/// Parse a menu-item identifier into its action; unrecognized identifiers
/// yield `None`.
pub fn parse_menu_id(id: &str) -> (r: Option<MenuAction>)
    ensures
        r == action_for(id@),
{
    if str_eq(id, "quit") {
        Some(MenuAction::Quit)
    } else if str_eq(id, "about") {
        Some(MenuAction::About)
    } else if str_eq(id, "open") {
        Some(MenuAction::Open)
    } else if str_eq(id, "save") {
        Some(MenuAction::Save)
    } else if str_eq(id, "hide") {
        Some(MenuAction::Hide)
    } else if str_eq(id, "minimize") {
        Some(MenuAction::Minimize)
    } else if str_eq(id, "close") {
        Some(MenuAction::Close)
    } else if str_eq(id, "fullscreen") {
        Some(MenuAction::Fullscreen)
    } else if str_eq(id, "undo") {
        Some(MenuAction::Undo)
    } else if str_eq(id, "redo") {
        Some(MenuAction::Redo)
    } else if str_eq(id, "cut") {
        Some(MenuAction::Cut)
    } else if str_eq(id, "copy") {
        Some(MenuAction::Copy)
    } else if str_eq(id, "paste") {
        Some(MenuAction::Paste)
    } else if str_eq(id, "select_all") {
        Some(MenuAction::SelectAll)
    } else {
        None
    }
}

/// The outcome each action stands for: quit exits with code 0; the window
/// actions operate on the window; the editing and file actions are forwarded
/// to the front-end as notifications.
pub open spec fn outcome_of(a: MenuAction) -> MenuOutcome {
    match a {
        MenuAction::Quit => MenuOutcome::Exit(0),
        MenuAction::About => MenuOutcome::ShowAbout,
        MenuAction::Open => MenuOutcome::Notify(Notification::MenuOpen),
        MenuAction::Save => MenuOutcome::Notify(Notification::MenuSave),
        MenuAction::Hide => MenuOutcome::Window(WindowOp::Hide),
        MenuAction::Minimize => MenuOutcome::Window(WindowOp::Minimize),
        MenuAction::Close => MenuOutcome::Window(WindowOp::Close),
        MenuAction::Fullscreen => MenuOutcome::Window(WindowOp::ToggleFullscreen),
        MenuAction::Undo => MenuOutcome::Notify(Notification::MenuUndo),
        MenuAction::Redo => MenuOutcome::Notify(Notification::MenuRedo),
        MenuAction::Cut => MenuOutcome::Notify(Notification::MenuCut),
        MenuAction::Copy => MenuOutcome::Notify(Notification::MenuCopy),
        MenuAction::Paste => MenuOutcome::Notify(Notification::MenuPaste),
        MenuAction::SelectAll => MenuOutcome::Notify(Notification::MenuSelectAll),
    }
}

/// Map one action to its outcome.
pub fn dispatch(a: MenuAction) -> (r: MenuOutcome)
    ensures
        r == outcome_of(a),
{
    match a {
        MenuAction::Quit => MenuOutcome::Exit(0),
        MenuAction::About => MenuOutcome::ShowAbout,
        MenuAction::Open => MenuOutcome::Notify(Notification::MenuOpen),
        MenuAction::Save => MenuOutcome::Notify(Notification::MenuSave),
        MenuAction::Hide => MenuOutcome::Window(WindowOp::Hide),
        MenuAction::Minimize => MenuOutcome::Window(WindowOp::Minimize),
        MenuAction::Close => MenuOutcome::Window(WindowOp::Close),
        MenuAction::Fullscreen => MenuOutcome::Window(WindowOp::ToggleFullscreen),
        MenuAction::Undo => MenuOutcome::Notify(Notification::MenuUndo),
        MenuAction::Redo => MenuOutcome::Notify(Notification::MenuRedo),
        MenuAction::Cut => MenuOutcome::Notify(Notification::MenuCut),
        MenuAction::Copy => MenuOutcome::Notify(Notification::MenuCopy),
        MenuAction::Paste => MenuOutcome::Notify(Notification::MenuPaste),
        MenuAction::SelectAll => MenuOutcome::Notify(Notification::MenuSelectAll),
    }
}

/// The outcome of a menu event by identifier: the outcome of its action, or
/// `None` for an identifier the dispatcher does not recognize.
pub open spec fn outcome_for_id(id: Seq<char>) -> Option<MenuOutcome> {
    match action_for(id) {
        Some(a) => Some(outcome_of(a)),
        None => None,
    }
}

/// Handle one menu event: parse the identifier and map it to its outcome.
/// An unrecognized identifier has no observable effect.
pub fn handle_menu_event(id: &str) -> (r: Option<MenuOutcome>)
    ensures
        r == outcome_for_id(id@),
{
    match parse_menu_id(id) {
        Some(a) => Some(dispatch(a)),
        None => None,
    }
}

/// No two distinct identifiers select the same action: together with
/// `action_for` being a function, each recognized identifier selects exactly
/// one action, and each action belongs to exactly one identifier.
pub proof fn lemma_action_for_injective(a: Seq<char>, b: Seq<char>)
    requires
        action_for(a) is Some,
        action_for(a) == action_for(b),
    ensures
        a == b,
{
}

} // verus!
