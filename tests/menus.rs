use iui::{is_valid_name, Menu, MenuEntry, MenuItem, UI};

#[test]
fn new_bar_has_no_menus() {
    let ui = UI::new();
    assert!(ui.menus().is_empty());
}

#[test]
fn menus_are_listed_in_creation_order() {
    let mut ui = UI::new();
    Menu::new(&mut ui, "File");
    Menu::new(&mut ui, "Edit");
    let menus = ui.menus();
    assert_eq!(menus.len(), 2);
    assert_eq!(menus[0].name(&ui), "File");
    assert_eq!(menus[1].name(&ui), "Edit");
    assert!(menus[1].entries(&ui).is_empty());
}

#[test]
fn appended_entries_keep_their_order() {
    let mut ui = UI::new();
    let file = Menu::new(&mut ui, "File");
    let open = file.append_item(&mut ui, "Open");
    file.append_separator(&mut ui);
    let autosave = file.append_check_item(&mut ui, "Autosave");
    assert_eq!(
        file.entries(&ui),
        &vec![MenuEntry::Item(0), MenuEntry::Separator, MenuEntry::Item(1)]
    );
    assert_eq!(open.name(&ui), "Open");
    assert_eq!(autosave.name(&ui), "Autosave");
    assert!(!open.checkable(&ui));
    assert!(autosave.checkable(&ui));
}

#[test]
fn items_of_two_menus_are_numbered_across_the_bar() {
    let mut ui = UI::new();
    let file = Menu::new(&mut ui, "File");
    let edit = Menu::new(&mut ui, "Edit");
    file.append_item(&mut ui, "Open");
    let copy = edit.append_item(&mut ui, "Copy");
    file.append_item(&mut ui, "Quit");
    assert_eq!(copy.name(&ui), "Copy");
    assert_eq!(file.entries(&ui), &vec![MenuEntry::Item(0), MenuEntry::Item(2)]);
    assert_eq!(edit.entries(&ui), &vec![MenuEntry::Item(1)]);
}

#[test]
fn new_items_are_enabled_and_unchecked() {
    let mut ui = UI::new();
    let view = Menu::new(&mut ui, "View");
    let plain = view.append_item(&mut ui, "Zoom");
    let check = view.append_check_item(&mut ui, "Grid");
    assert!(plain.enabled(&ui));
    assert!(check.enabled(&ui));
    assert!(!plain.checked(&ui));
    assert!(!check.checked(&ui));
}

#[test]
fn disable_and_enable() {
    let mut ui = UI::new();
    let file = Menu::new(&mut ui, "File");
    let save = file.append_item(&mut ui, "Save");
    save.disable(&mut ui);
    assert!(!save.enabled(&ui));
    save.disable(&mut ui);
    assert!(!save.enabled(&ui));
    save.enable(&mut ui);
    assert!(save.enabled(&ui));
}

#[test]
fn check_item_state_round_trips() {
    let mut ui = UI::new();
    let view = Menu::new(&mut ui, "View");
    let grid = view.append_check_item(&mut ui, "Grid");
    grid.set_checked(&mut ui, true);
    assert!(grid.checked(&ui));
    grid.set_checked(&mut ui, true);
    assert!(grid.checked(&ui));
    grid.set_checked(&mut ui, false);
    assert!(!grid.checked(&ui));
}

#[test]
fn set_checked_on_plain_item_has_no_effect() {
    let mut ui = UI::new();
    let view = Menu::new(&mut ui, "View");
    let zoom = view.append_item(&mut ui, "Zoom");
    zoom.set_checked(&mut ui, true);
    assert!(!zoom.checked(&ui));
}

#[test]
fn disabling_keeps_checked_state() {
    let mut ui = UI::new();
    let view = Menu::new(&mut ui, "View");
    let grid = view.append_check_item(&mut ui, "Grid");
    grid.set_checked(&mut ui, true);
    grid.disable(&mut ui);
    assert!(grid.checked(&ui));
}

#[test]
fn click_without_handler_runs_nothing() {
    let mut ui = UI::new();
    let file = Menu::new(&mut ui, "File");
    let open = file.append_item(&mut ui, "Open");
    assert_eq!(ui.click(&open), None);
}

#[test]
fn click_returns_registered_handler() {
    let mut ui = UI::new();
    let file = Menu::new(&mut ui, "File");
    let open = file.append_item(&mut ui, "Open");
    let quit = file.append_item(&mut ui, "Quit");
    open.on_clicked(&mut ui, 7);
    quit.on_clicked(&mut ui, 9);
    assert_eq!(ui.click(&open), Some(7));
    assert_eq!(ui.click(&quit), Some(9));
}

#[test]
fn later_handler_replaces_earlier() {
    let mut ui = UI::new();
    let file = Menu::new(&mut ui, "File");
    let open = file.append_item(&mut ui, "Open");
    open.on_clicked(&mut ui, 1);
    open.on_clicked(&mut ui, 2);
    assert_eq!(ui.click(&open), Some(2));
}

#[test]
fn click_on_disabled_item_is_ignored() {
    let mut ui = UI::new();
    let view = Menu::new(&mut ui, "View");
    let grid = view.append_check_item(&mut ui, "Grid");
    grid.on_clicked(&mut ui, 3);
    grid.disable(&mut ui);
    assert_eq!(ui.click(&grid), None);
    assert!(!grid.checked(&ui));
}

#[test]
fn click_toggles_check_item() {
    let mut ui = UI::new();
    let view = Menu::new(&mut ui, "View");
    let grid = view.append_check_item(&mut ui, "Grid");
    grid.on_clicked(&mut ui, 4);
    assert_eq!(ui.click(&grid), Some(4));
    assert!(grid.checked(&ui));
    assert_eq!(ui.click(&grid), Some(4));
    assert!(!grid.checked(&ui));
}

#[test]
fn click_leaves_plain_item_unchecked() {
    let mut ui = UI::new();
    let file = Menu::new(&mut ui, "File");
    let open = file.append_item(&mut ui, "Open");
    ui.click(&open);
    assert!(!open.checked(&ui));
}

#[test]
fn item_from_raw_names_the_same_item() {
    let mut ui = UI::new();
    let file = Menu::new(&mut ui, "File");
    file.append_item(&mut ui, "Open");
    let save = file.append_item(&mut ui, "Save");
    let again = MenuItem::from_raw(1);
    assert_eq!(again.name(&ui), "Save");
    again.disable(&mut ui);
    assert!(!save.enabled(&ui));
}

#[test]
fn names_without_nul_are_valid() {
    assert!(is_valid_name("File"));
    assert!(is_valid_name(""));
    assert!(is_valid_name("Ünïcode …"));
}

#[test]
fn names_with_nul_are_invalid() {
    assert!(!is_valid_name("a\0b"));
    assert!(!is_valid_name("\0"));
    assert!(!is_valid_name("end\0"));
}
