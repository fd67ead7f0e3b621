//! Notifications sent to the front-end view, and the effect records that the
//! gate's operations hand to the platform layer.

use vstd::prelude::*;

verus! {

/// A named notification emitted to the front-end view. Every notification
/// carries an empty payload; only its name is observable.
#[derive(Clone, Copy, Debug, PartialEq, Eq, Structural)]
pub enum Notification {
    /// Ask the front-end to show the close-confirmation UI.
    ConfirmClose,
    /// A menu item asked the front-end to open a document.
    MenuOpen,
    /// A menu item asked the front-end to save the document.
    MenuSave,
    /// A menu item asked the front-end to undo the last edit.
    MenuUndo,
    /// A menu item asked the front-end to redo the last undone edit.
    MenuRedo,
    /// A menu item asked the front-end to cut the selection.
    MenuCut,
    /// A menu item asked the front-end to copy the selection.
    MenuCopy,
    /// A menu item asked the front-end to paste the clipboard.
    MenuPaste,
    /// A menu item asked the front-end to select everything.
    MenuSelectAll,
}

/// The wire name under which each notification is emitted.
pub open spec fn spec_event_name(n: Notification) -> Seq<char> {
    match n {
        Notification::ConfirmClose => "confirm-close"@,
        Notification::MenuOpen => "menu-open"@,
        Notification::MenuSave => "menu-save"@,
        Notification::MenuUndo => "menu-undo"@,
        Notification::MenuRedo => "menu-redo"@,
        Notification::MenuCut => "menu-cut"@,
        Notification::MenuCopy => "menu-copy"@,
        Notification::MenuPaste => "menu-paste"@,
        Notification::MenuSelectAll => "menu-select-all"@,
    }
}

impl Notification {
    /// The event name the front-end sees for this notification.
    pub fn event_name(&self) -> (r: &'static str)
        ensures
            r@ == spec_event_name(*self),
    {
        match self {
            Notification::ConfirmClose => "confirm-close",
            Notification::MenuOpen => "menu-open",
            Notification::MenuSave => "menu-save",
            Notification::MenuUndo => "menu-undo",
            Notification::MenuRedo => "menu-redo",
            Notification::MenuCut => "menu-cut",
            Notification::MenuCopy => "menu-copy",
            Notification::MenuPaste => "menu-paste",
            Notification::MenuSelectAll => "menu-select-all",
        }
    }
}

/// What a shell operation asks the platform layer to do:
/// `close_window` is true exactly when one window-close request is to be
/// issued, and `notifications` are the notifications to emit, in order.
#[derive(Clone, Debug, PartialEq, Eq)]
pub struct Effects {
    /// True exactly when one window-close request is to be issued.
    pub close_window: bool,
    /// The notifications to emit to the front-end view, in order.
    pub notifications: Vec<Notification>,
}

} // verus!
