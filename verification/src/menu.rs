//! The menu-bar description and the dispatch of menu activations.
//!
//! The menu bar has two submenus. File items carry application command
//! identifiers and keyboard accelerators; activating one produces a
//! single `menu-event` addressed to the UI layer, with the identifier
//! as payload. Edit items are platform-native text-editing actions and
//! never produce an application event.

use vstd::prelude::*;

use crate::event::UiEvent;

verus! {

/// Identifier of a File-menu command, as carried in `menu-event` payloads.
#[derive(Clone, Copy, PartialEq, Eq, Structural, Debug)]
pub enum MenuCommandId {
    New,
    Open,
    Save,
    SaveAs,
    Quit,
}

impl MenuCommandId {
    /// The identifier string of this command.
    pub open spec fn id_spec(self) -> Seq<char> {
        match self {
            MenuCommandId::New => "new"@,
            MenuCommandId::Open => "open"@,
            MenuCommandId::Save => "save"@,
            MenuCommandId::SaveAs => "save_as"@,
            MenuCommandId::Quit => "quit"@,
        }
    }

    /// The identifier string of this command, for menu construction
    /// and event payloads.
    pub fn id(&self) -> (r: String)
        ensures
            r@ == self.id_spec(),
    {
        match self {
            MenuCommandId::New => "new".to_owned(),
            MenuCommandId::Open => "open".to_owned(),
            MenuCommandId::Save => "save".to_owned(),
            MenuCommandId::SaveAs => "save_as".to_owned(),
            MenuCommandId::Quit => "quit".to_owned(),
        }
    }
}

/// A platform-native text-editing action of the Edit submenu. These
/// are handled entirely by the platform's text-field behaviour.
#[derive(Clone, Copy, PartialEq, Eq, Structural, Debug)]
pub enum EditAction {
    Undo,
    Redo,
    Cut,
    Copy,
    Paste,
    SelectAll,
}

/// The conventional identifier of a native Edit action. No such
/// identifier is a File-command identifier, which is what keeps Edit
/// activations out of the `menu-event` stream.
pub open spec fn edit_action_name(a: EditAction) -> Seq<char> {
    match a {
        EditAction::Undo => "undo"@,
        EditAction::Redo => "redo"@,
        EditAction::Cut => "cut"@,
        EditAction::Copy => "copy"@,
        EditAction::Paste => "paste"@,
        EditAction::SelectAll => "select_all"@,
    }
}

/// Whether `s` is the identifier of some File-menu command.
pub open spec fn is_file_command_id(s: Seq<char>) -> bool {
    s == "new"@ || s == "open"@ || s == "save"@ || s == "save_as"@ || s == "quit"@
}

/// What activating a menu item with identifier `id` sends to the UI
/// layer: exactly one `menu-event` carrying the identifier when it is a
/// File command, and nothing otherwise.
pub open spec fn menu_event_spec(id: Seq<char>) -> Option<(Seq<char>, Seq<char>)> {
    if is_file_command_id(id) {
        Some(("menu-event"@, id))
    } else {
        None
    }
}

/// The name and payload of an optional event, as the spec-level model
/// speaks of them.
pub open spec fn event_view(r: Option<UiEvent>) -> Option<(Seq<char>, Seq<char>)> {
    match r {
        Some(e) => Some((e.name@, e.payload@)),
        None => None,
    }
}

/// Character-for-character string equality.
fn str_eq(a: &str, b: &str) -> (r: bool)
    ensures
        r <==> a@ == b@,
{
    let alen = a.unicode_len();
    let blen = b.unicode_len();
    if alen != blen {
        return false;
    }
    let mut i: usize = 0;
    while i < alen
        invariant
            alen == a@.len(),
            blen == b@.len(),
            alen == blen,
            i <= alen,
            forall|j: int| 0 <= j < i ==> a@[j] == b@[j],
        decreases alen - i,
    {
        if a.get_char(i) != b.get_char(i) {
            return false;
        }
        i += 1;
    }
    proof {
        assert(a@ =~= b@);
    }
    true
}

/// Decide what an activation of the menu item with identifier `id`
/// sends to the UI layer: one `menu-event` with the identifier as
/// payload for a File command, nothing for anything else (in
/// particular, for the platform-native Edit actions).
pub fn menu_activation_event(id: &str) -> (r: Option<UiEvent>)
    ensures
        event_view(r) == menu_event_spec(id@),
{
    if str_eq(id, "new") || str_eq(id, "open") || str_eq(id, "save") || str_eq(id, "save_as")
        || str_eq(id, "quit") {
        Some(UiEvent { name: "menu-event".to_owned(), payload: id.to_owned() })
    } else {
        None
    }
}

/// One item of the File submenu: an application command with its
/// label and keyboard accelerator.
pub struct FileMenuItem {
    pub command: MenuCommandId,
    pub label: String,
    pub accelerator: String,
    pub separator_before: bool,
}

/// One item of the Edit submenu: a platform-native action.
pub struct EditMenuItem {
    pub action: EditAction,
    pub separator_before: bool,
}

/// The whole two-submenu bar, as the shell asks the platform to build it.
pub struct MenuBar {
    pub file_items: Vec<FileMenuItem>,
    pub edit_items: Vec<EditMenuItem>,
}

/// The fixed menu bar of the application: File holds the five commands
/// with their accelerators, a separator setting Quit apart; Edit holds
/// the six native text-editing actions, a separator between the undo
/// pair and the clipboard actions.
pub open spec fn is_standard_menu_bar(m: MenuBar) -> bool {
    &&& m.file_items@.len() == 5
    &&& m.file_items@[0].command == MenuCommandId::New
    &&& m.file_items@[0].label@ == "New"@
    &&& m.file_items@[0].accelerator@ == "CmdOrCtrl+N"@
    &&& !m.file_items@[0].separator_before
    &&& m.file_items@[1].command == MenuCommandId::Open
    &&& m.file_items@[1].label@ == "Open..."@
    &&& m.file_items@[1].accelerator@ == "CmdOrCtrl+O"@
    &&& !m.file_items@[1].separator_before
    &&& m.file_items@[2].command == MenuCommandId::Save
    &&& m.file_items@[2].label@ == "Save"@
    &&& m.file_items@[2].accelerator@ == "CmdOrCtrl+S"@
    &&& !m.file_items@[2].separator_before
    &&& m.file_items@[3].command == MenuCommandId::SaveAs
    &&& m.file_items@[3].label@ == "Save As..."@
    &&& m.file_items@[3].accelerator@ == "CmdOrCtrl+Shift+S"@
    &&& !m.file_items@[3].separator_before
    &&& m.file_items@[4].command == MenuCommandId::Quit
    &&& m.file_items@[4].label@ == "Quit DemirMD"@
    &&& m.file_items@[4].accelerator@ == "CmdOrCtrl+Q"@
    &&& m.file_items@[4].separator_before
    &&& m.edit_items@.len() == 6
    &&& m.edit_items@[0].action == EditAction::Undo
    &&& !m.edit_items@[0].separator_before
    &&& m.edit_items@[1].action == EditAction::Redo
    &&& !m.edit_items@[1].separator_before
    &&& m.edit_items@[2].action == EditAction::Cut
    &&& m.edit_items@[2].separator_before
    &&& m.edit_items@[3].action == EditAction::Copy
    &&& !m.edit_items@[3].separator_before
    &&& m.edit_items@[4].action == EditAction::Paste
    &&& !m.edit_items@[4].separator_before
    &&& m.edit_items@[5].action == EditAction::SelectAll
    &&& !m.edit_items@[5].separator_before
}

/// Build the application's menu bar description, for the platform
/// layer to realise as a native menu.
pub fn menu_bar() -> (m: MenuBar)
    ensures
        is_standard_menu_bar(m),
{
    let mut file_items: Vec<FileMenuItem> = Vec::new();
    file_items.push(
        FileMenuItem {
            command: MenuCommandId::New,
            label: "New".to_owned(),
            accelerator: "CmdOrCtrl+N".to_owned(),
            separator_before: false,
        },
    );
    file_items.push(
        FileMenuItem {
            command: MenuCommandId::Open,
            label: "Open...".to_owned(),
            accelerator: "CmdOrCtrl+O".to_owned(),
            separator_before: false,
        },
    );
    file_items.push(
        FileMenuItem {
            command: MenuCommandId::Save,
            label: "Save".to_owned(),
            accelerator: "CmdOrCtrl+S".to_owned(),
            separator_before: false,
        },
    );
    file_items.push(
        FileMenuItem {
            command: MenuCommandId::SaveAs,
            label: "Save As...".to_owned(),
            accelerator: "CmdOrCtrl+Shift+S".to_owned(),
            separator_before: false,
        },
    );
    file_items.push(
        FileMenuItem {
            command: MenuCommandId::Quit,
            label: "Quit DemirMD".to_owned(),
            accelerator: "CmdOrCtrl+Q".to_owned(),
            separator_before: true,
        },
    );
    let mut edit_items: Vec<EditMenuItem> = Vec::new();
    edit_items.push(EditMenuItem { action: EditAction::Undo, separator_before: false });
    edit_items.push(EditMenuItem { action: EditAction::Redo, separator_before: false });
    edit_items.push(EditMenuItem { action: EditAction::Cut, separator_before: true });
    edit_items.push(EditMenuItem { action: EditAction::Copy, separator_before: false });
    edit_items.push(EditMenuItem { action: EditAction::Paste, separator_before: false });
    edit_items.push(EditMenuItem { action: EditAction::SelectAll, separator_before: false });
    MenuBar { file_items, edit_items }
}

/// Activating a File-menu item produces exactly one `menu-event`, whose
/// payload is that item's own identifier.
pub proof fn lemma_file_activation_emits_menu_event(cmd: MenuCommandId)
    ensures
        menu_event_spec(cmd.id_spec()) == Some(("menu-event"@, cmd.id_spec())),
{
}

/// An Edit-submenu activation never produces a `menu-event`: no native
/// Edit action's identifier is a File-command identifier.
pub proof fn lemma_edit_activation_emits_nothing(a: EditAction)
    ensures
        menu_event_spec(edit_action_name(a)) is None,
{
    reveal_strlit("new");
    reveal_strlit("open");
    reveal_strlit("save");
    reveal_strlit("save_as");
    reveal_strlit("quit");
    reveal_strlit("undo");
    reveal_strlit("redo");
    reveal_strlit("cut");
    reveal_strlit("copy");
    reveal_strlit("paste");
    reveal_strlit("select_all");
    match a {
        EditAction::Undo => {
            assert(("undo"@)[0] == 'u' && ("open"@)[0] == 'o' && ("save"@)[0] == 's'
                && ("quit"@)[0] == 'q');
            assert(!is_file_command_id("undo"@));
        },
        EditAction::Redo => {
            assert(("redo"@)[0] == 'r' && ("open"@)[0] == 'o' && ("save"@)[0] == 's'
                && ("quit"@)[0] == 'q');
            assert(!is_file_command_id("redo"@));
        },
        EditAction::Cut => {
            assert(("cut"@)[0] == 'c' && ("new"@)[0] == 'n');
            assert(!is_file_command_id("cut"@));
        },
        EditAction::Copy => {
            assert(("copy"@)[0] == 'c' && ("open"@)[0] == 'o' && ("save"@)[0] == 's'
                && ("quit"@)[0] == 'q');
            assert(!is_file_command_id("copy"@));
        },
        EditAction::Paste => {
            assert(("paste"@).len() == 5);
            assert(!is_file_command_id("paste"@));
        },
        EditAction::SelectAll => {
            assert(("select_all"@).len() == 10);
            assert(!is_file_command_id("select_all"@));
        },
    }
}

} // verus!
