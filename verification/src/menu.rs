//! The menu tree the shell installs at startup: a fixed three-level
//! structure (menu bar, submenus, leaf items) with stable identifiers,
//! localized labels and keyboard accelerators.

use crate::dispatch::action_for;
use vstd::prelude::*;
use vstd::string::StringExecFns;

verus! {

/// A leaf menu item: a stable identifier used for dispatch, a display
/// label, and an optional keyboard accelerator.
#[derive(Clone, Debug)]
pub struct MenuItem {
    /// Stable identifier handed to the dispatcher when the item is clicked.
    pub id: String,
    /// Localized display label.
    pub label: String,
    /// Keyboard accelerator, if the item has one.
    pub accelerator: Option<String>,
}

/// One entry of a submenu: a leaf item or a separator line.
#[derive(Clone, Debug)]
pub enum MenuEntry {
    /// A clickable leaf item.
    Item(MenuItem),
    /// A separator line.
    Separator,
}

/// A titled submenu of the menu bar.
#[derive(Clone, Debug)]
pub struct Submenu {
    /// Title shown in the menu bar.
    pub title: String,
    /// The submenu's entries, in display order.
    pub entries: Vec<MenuEntry>,
}

/// The whole menu bar: its submenus in display order.
#[derive(Clone, Debug)]
pub struct MenuBar {
    /// The top-level submenus, in display order.
    pub submenus: Vec<Submenu>,
}

/// `e` is a leaf item with the given identifier and label and no
/// accelerator.
pub open spec fn entry_is_plain_item(e: MenuEntry, id: Seq<char>, label: Seq<char>) -> bool {
    &&& e matches MenuEntry::Item(it)
    &&& it.id@ == id
    &&& it.label@ == label
    &&& it.accelerator is None
}

/// `e` is a leaf item with the given identifier, label and accelerator.
pub open spec fn entry_is_accel_item(
    e: MenuEntry,
    id: Seq<char>,
    label: Seq<char>,
    accel: Seq<char>,
) -> bool {
    &&& e matches MenuEntry::Item(it)
    &&& it.id@ == id
    &&& it.label@ == label
    &&& it.accelerator matches Some(a) && a@ == accel
}

/// The application submenu: about, a separator, and quit.
pub open spec fn is_app_submenu(s: Submenu) -> bool {
    &&& s.title@ == "dailywork"@
    &&& s.entries@.len() == 3
    &&& entry_is_plain_item(s.entries@[0], "about"@, "dailywork에 관하여"@)
    &&& s.entries@[1] is Separator
    &&& entry_is_accel_item(s.entries@[2], "quit"@, "dailywork 종료"@, "CmdOrCtrl+Q"@)
}

/// The file submenu: open, save, a separator, and close.
pub open spec fn is_file_submenu(s: Submenu) -> bool {
    &&& s.title@ == "파일"@
    &&& s.entries@.len() == 4
    &&& entry_is_accel_item(s.entries@[0], "open"@, "열기"@, "CmdOrCtrl+O"@)
    &&& entry_is_accel_item(s.entries@[1], "save"@, "저장"@, "CmdOrCtrl+S"@)
    &&& s.entries@[2] is Separator
    &&& entry_is_accel_item(s.entries@[3], "close"@, "윈도우 닫기"@, "CmdOrCtrl+W"@)
}

/// The edit submenu: undo, redo, a separator, cut, copy, paste, select all.
pub open spec fn is_edit_submenu(s: Submenu) -> bool {
    &&& s.title@ == "편집"@
    &&& s.entries@.len() == 7
    &&& entry_is_accel_item(s.entries@[0], "undo"@, "실행 취소"@, "CmdOrCtrl+Z"@)
    &&& entry_is_accel_item(s.entries@[1], "redo"@, "다시 실행"@, "CmdOrCtrl+Shift+Z"@)
    &&& s.entries@[2] is Separator
    &&& entry_is_accel_item(s.entries@[3], "cut"@, "잘라내기"@, "CmdOrCtrl+X"@)
    &&& entry_is_accel_item(s.entries@[4], "copy"@, "복사"@, "CmdOrCtrl+C"@)
    &&& entry_is_accel_item(s.entries@[5], "paste"@, "붙여넣기"@, "CmdOrCtrl+V"@)
    &&& entry_is_accel_item(s.entries@[6], "select_all"@, "모두 선택"@, "CmdOrCtrl+A"@)
}

/// The whole localized menu bar: application, file and edit submenus.
pub open spec fn is_korean_menu(m: MenuBar) -> bool {
    &&& m.submenus@.len() == 3
    &&& is_app_submenu(m.submenus@[0])
    &&& is_file_submenu(m.submenus@[1])
    &&& is_edit_submenu(m.submenus@[2])
}

/// Build a leaf entry without an accelerator.
fn leaf(id: &str, label: &str) -> (e: MenuEntry)
    ensures
        entry_is_plain_item(e, id@, label@),
{
    MenuEntry::Item(
        MenuItem { id: String::from_str(id), label: String::from_str(label), accelerator: None },
    )
}

/// Build a leaf entry with an accelerator.
fn accel_leaf(id: &str, label: &str, accel: &str) -> (e: MenuEntry)
    ensures
        entry_is_accel_item(e, id@, label@, accel@),
{
    MenuEntry::Item(
        MenuItem {
            id: String::from_str(id),
            label: String::from_str(label),
            accelerator: Some(String::from_str(accel)),
        },
    )
}

/// Build the localized menu bar the shell installs at startup.
/// Construction is pure and deterministic; the platform layer turns the
/// returned description into native menus.
pub fn create_korean_menu() -> (m: MenuBar)
    ensures
        is_korean_menu(m),
{
    let mut app_entries: Vec<MenuEntry> = Vec::new();
    app_entries.push(leaf("about", "dailywork에 관하여"));
    app_entries.push(MenuEntry::Separator);
    app_entries.push(accel_leaf("quit", "dailywork 종료", "CmdOrCtrl+Q"));
    let app_menu = Submenu { title: String::from_str("dailywork"), entries: app_entries };

    let mut file_entries: Vec<MenuEntry> = Vec::new();
    file_entries.push(accel_leaf("open", "열기", "CmdOrCtrl+O"));
    file_entries.push(accel_leaf("save", "저장", "CmdOrCtrl+S"));
    file_entries.push(MenuEntry::Separator);
    file_entries.push(accel_leaf("close", "윈도우 닫기", "CmdOrCtrl+W"));
    let file_menu = Submenu { title: String::from_str("파일"), entries: file_entries };

    let mut edit_entries: Vec<MenuEntry> = Vec::new();
    edit_entries.push(accel_leaf("undo", "실행 취소", "CmdOrCtrl+Z"));
    edit_entries.push(accel_leaf("redo", "다시 실행", "CmdOrCtrl+Shift+Z"));
    edit_entries.push(MenuEntry::Separator);
    edit_entries.push(accel_leaf("cut", "잘라내기", "CmdOrCtrl+X"));
    edit_entries.push(accel_leaf("copy", "복사", "CmdOrCtrl+C"));
    edit_entries.push(accel_leaf("paste", "붙여넣기", "CmdOrCtrl+V"));
    edit_entries.push(accel_leaf("select_all", "모두 선택", "CmdOrCtrl+A"));
    let edit_menu = Submenu { title: String::from_str("편집"), entries: edit_entries };

    let mut submenus: Vec<Submenu> = Vec::new();
    submenus.push(app_menu);
    submenus.push(file_menu);
    submenus.push(edit_menu);
    MenuBar { submenus }
}

/// Every leaf identifier in the localized menu is recognized by the
/// dispatcher: clicking any item of the menu always selects an action.
pub proof fn lemma_korean_menu_ids_recognized(m: MenuBar)
    requires
        is_korean_menu(m),
    ensures
        forall|i: int, j: int|
            0 <= i < m.submenus@.len() && 0 <= j < m.submenus@[i].entries@.len() ==> ((
            #[trigger] m.submenus@[i].entries@[j]) matches MenuEntry::Item(it) ==> action_for(
                it.id@,
            ) is Some),
{
    reveal_strlit("quit");
    reveal_strlit("about");
    reveal_strlit("open");
    reveal_strlit("save");
    reveal_strlit("hide");
    reveal_strlit("minimize");
    reveal_strlit("close");
    reveal_strlit("fullscreen");
    reveal_strlit("undo");
    reveal_strlit("redo");
    reveal_strlit("cut");
    reveal_strlit("copy");
    reveal_strlit("paste");
    reveal_strlit("select_all");
    assert(action_for("about"@) is Some);
    assert(action_for("quit"@) is Some);
    assert(action_for("open"@) is Some);
    assert(action_for("save"@) is Some);
    assert(action_for("close"@) is Some);
    assert(action_for("undo"@) is Some);
    assert(action_for("redo"@) is Some);
    assert(action_for("cut"@) is Some);
    assert(action_for("copy"@) is Some);
    assert(action_for("paste"@) is Some);
    assert(action_for("select_all"@) is Some);
}

} // verus!
