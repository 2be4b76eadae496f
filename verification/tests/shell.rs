use mdshell::event::UiEvent;
use mdshell::launch::handle_open_signal;
use mdshell::menu::menu_activation_event;
use mdshell::menu::menu_bar;
use mdshell::menu::EditAction;
use mdshell::menu::MenuCommandId;
use mdshell::relay::OpenedFileSlot;

fn signal(slot: &mut OpenedFileSlot, urls: &[&str]) -> Vec<UiEvent> {
    let owned: Vec<String> = urls.iter().map(|u| u.to_string()).collect();
    handle_open_signal(slot, &owned)
}

#[test]
fn read_once_returns_path_then_empty() {
    let mut slot = OpenedFileSlot::new();
    let emits = signal(&mut slot, &["file:///tmp/doc.md"]);
    assert_eq!(emits.len(), 1);
    assert_eq!(emits[0].name, "open-file");
    assert_eq!(emits[0].payload, "/tmp/doc.md");
    assert_eq!(slot.take(), Some("/tmp/doc.md".to_string()));
    assert_eq!(slot.take(), None);
}

#[test]
fn read_with_nothing_stored_is_empty() {
    let mut slot = OpenedFileSlot::new();
    assert_eq!(slot.take(), None);
}

#[test]
fn last_signal_wins() {
    let mut slot = OpenedFileSlot::new();
    signal(&mut slot, &["file:///tmp/first.md"]);
    signal(&mut slot, &["file:///tmp/second.md"]);
    assert_eq!(slot.take(), Some("/tmp/second.md".to_string()));
    assert_eq!(slot.take(), None);
}

#[test]
fn last_convertible_url_of_one_signal_wins() {
    let mut slot = OpenedFileSlot::new();
    let emits = signal(
        &mut slot,
        &["file:///tmp/a.md", "https://example.com", "file:///tmp/b.md"],
    );
    assert_eq!(emits.len(), 2);
    assert_eq!(emits[0].payload, "/tmp/a.md");
    assert_eq!(emits[1].payload, "/tmp/b.md");
    assert_eq!(slot.take(), Some("/tmp/b.md".to_string()));
}

#[test]
fn non_file_url_is_skipped() {
    let mut slot = OpenedFileSlot::new();
    let emits = signal(&mut slot, &["https://example.com"]);
    assert_eq!(emits.len(), 0);
    assert_eq!(slot.take(), None);
}

#[test]
fn unparseable_url_is_skipped() {
    let mut slot = OpenedFileSlot::new();
    let emits = signal(&mut slot, &["not a url at all"]);
    assert_eq!(emits.len(), 0);
    assert_eq!(slot.take(), None);
}

#[test]
fn signal_without_convertible_url_keeps_prior_path() {
    let mut slot = OpenedFileSlot::new();
    signal(&mut slot, &["file:///tmp/doc.md"]);
    signal(&mut slot, &["https://example.com"]);
    assert_eq!(slot.take(), Some("/tmp/doc.md".to_string()));
}

#[test]
fn file_url_percent_decoding() {
    let mut slot = OpenedFileSlot::new();
    let emits = signal(&mut slot, &["file:///tmp/with%20space.md"]);
    assert_eq!(emits.len(), 1);
    assert_eq!(emits[0].payload, "/tmp/with space.md");
    assert_eq!(slot.take(), Some("/tmp/with space.md".to_string()));
}

#[test]
fn file_command_activation_emits_one_menu_event() {
    for id in ["new", "open", "save", "save_as", "quit"] {
        let e = menu_activation_event(id);
        match e {
            Some(ev) => {
                assert_eq!(ev.name, "menu-event");
                assert_eq!(ev.payload, id);
            }
            None => panic!("expected a menu-event for {}", id),
        }
    }
}

#[test]
fn edit_activation_emits_nothing() {
    for id in ["undo", "redo", "cut", "copy", "paste", "select_all"] {
        assert!(menu_activation_event(id).is_none());
    }
}

#[test]
fn unknown_identifier_emits_nothing() {
    assert!(menu_activation_event("").is_none());
    assert!(menu_activation_event("close").is_none());
    assert!(menu_activation_event("Save").is_none());
    assert!(menu_activation_event("saveas").is_none());
}

#[test]
fn command_identifiers() {
    assert_eq!(MenuCommandId::New.id(), "new");
    assert_eq!(MenuCommandId::Open.id(), "open");
    assert_eq!(MenuCommandId::Save.id(), "save");
    assert_eq!(MenuCommandId::SaveAs.id(), "save_as");
    assert_eq!(MenuCommandId::Quit.id(), "quit");
}

#[test]
fn menu_bar_description() {
    let m = menu_bar();
    assert_eq!(m.file_items.len(), 5);
    let commands: Vec<MenuCommandId> = m.file_items.iter().map(|i| i.command).collect();
    assert_eq!(
        commands,
        vec![
            MenuCommandId::New,
            MenuCommandId::Open,
            MenuCommandId::Save,
            MenuCommandId::SaveAs,
            MenuCommandId::Quit,
        ]
    );
    let labels: Vec<&str> = m.file_items.iter().map(|i| i.label.as_str()).collect();
    assert_eq!(labels, vec!["New", "Open...", "Save", "Save As...", "Quit DemirMD"]);
    let accels: Vec<&str> = m.file_items.iter().map(|i| i.accelerator.as_str()).collect();
    assert_eq!(
        accels,
        vec!["CmdOrCtrl+N", "CmdOrCtrl+O", "CmdOrCtrl+S", "CmdOrCtrl+Shift+S", "CmdOrCtrl+Q"]
    );
    let seps: Vec<bool> = m.file_items.iter().map(|i| i.separator_before).collect();
    assert_eq!(seps, vec![false, false, false, false, true]);

    assert_eq!(m.edit_items.len(), 6);
    let actions: Vec<EditAction> = m.edit_items.iter().map(|i| i.action).collect();
    assert_eq!(
        actions,
        vec![
            EditAction::Undo,
            EditAction::Redo,
            EditAction::Cut,
            EditAction::Copy,
            EditAction::Paste,
            EditAction::SelectAll,
        ]
    );
    let eseps: Vec<bool> = m.edit_items.iter().map(|i| i.separator_before).collect();
    assert_eq!(eseps, vec![false, false, true, false, false, false]);
}

#[test]
fn signal_with_no_urls_changes_nothing() {
    let mut slot = OpenedFileSlot::new();
    let emits = signal(&mut slot, &[]);
    assert_eq!(emits.len(), 0);
    assert_eq!(slot.take(), None);
}

#[test]
fn localhost_file_url_converts() {
    let mut slot = OpenedFileSlot::new();
    let emits = signal(&mut slot, &["file://localhost/tmp/doc.md"]);
    assert_eq!(emits.len(), 1);
    assert_eq!(emits[0].payload, "/tmp/doc.md");
    assert_eq!(slot.take(), Some("/tmp/doc.md".to_string()));
}

#[test]
fn file_url_with_remote_host_is_skipped() {
    let mut slot = OpenedFileSlot::new();
    let emits = signal(&mut slot, &["file://example.com/tmp/doc.md"]);
    assert_eq!(emits.len(), 0);
    assert_eq!(slot.take(), None);
}

#[test]
fn store_overwrites_unread_value() {
    let mut slot = OpenedFileSlot::new();
    slot.store("/tmp/a.md".to_string());
    slot.store("/tmp/b.md".to_string());
    assert_eq!(slot.take(), Some("/tmp/b.md".to_string()));
    assert_eq!(slot.take(), None);
}
