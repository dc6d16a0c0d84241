use wx_rs::{Menu, MenuEntry, MenuItem, NativeCall};

#[derive(Debug, Clone, Copy, PartialEq, Eq)]
enum Action {
    Open,
    Save,
    Copy,
    Paste,
    Zoom,
}

fn named(handle: usize, name: &str) -> Menu<Action> {
    Menu::new(handle, Some(name.to_string()))
}

fn entry(id: Action, name: &str) -> MenuItem<Action> {
    MenuItem::Entry(MenuEntry::new(id, name.to_string()))
}

fn entry_at(menu: &Menu<Action>, i: usize) -> (Action, i32, String) {
    match menu.item(i) {
        MenuItem::Entry(e) => (e.id(), e.event_id(), e.name().clone()),
        other => panic!("no entry at {}: {:?}", i, other),
    }
}

/// File [Open=101, Edit > [Copy=201, More > [Zoom=301], Paste=202], ---, Save=102]
fn tree() -> Menu<Action> {
    let more = named(30, "More").push_entry(MenuEntry::new(Action::Zoom, "Zoom".to_string()), 301);
    let edit = named(20, "Edit")
        .push_entry(MenuEntry::new(Action::Copy, "Copy".to_string()), 201)
        .push_submenu(more)
        .push_entry(MenuEntry::new(Action::Paste, "Paste".to_string()), 202);
    named(10, "File")
        .push_entry(MenuEntry::new(Action::Open, "Open".to_string()), 101)
        .push_submenu(edit)
        .push_separator()
        .push_entry(MenuEntry::new(Action::Save, "Save".to_string()), 102)
}

#[test]
fn a_new_menu_is_empty() {
    let menu: Menu<Action> = Menu::new(7, None);
    assert_eq!(menu.len(), 0);
    assert_eq!(menu.handle(), 7);
    assert_eq!(menu.name(), &None);
    assert_eq!(menu.get_entry_from_event_id(0), None);
    let menu = named(8, "File");
    assert_eq!(menu.name(), &Some("File".to_string()));
}

#[test]
fn a_new_entry_has_no_number_yet() {
    let e = MenuEntry::new(Action::Open, "Open".to_string());
    assert_eq!(e.id(), Action::Open);
    assert_eq!(e.event_id(), 0);
    assert_eq!(e.name(), "Open");
}

#[test]
fn inserting_an_entry_asks_for_an_entry() {
    let menu = named(10, "File");
    let plain = entry(Action::Open, "Open");
    assert_eq!(
        menu.insert_call(0, &plain),
        NativeCall::InsertToMenu { menu: 10, index: 0, name: "Open".to_string(), help: None }
    );
    let helped =
        MenuItem::Entry(MenuEntry::new(Action::Save, "Save".to_string()).help("Writes".to_string()));
    assert_eq!(
        menu.insert_call(0, &helped),
        NativeCall::InsertToMenu {
            menu: 10,
            index: 0,
            name: "Save".to_string(),
            help: Some("Writes".to_string()),
        }
    );
}

#[test]
fn inserting_a_submenu_hands_over_its_handle_and_texts() {
    let menu = tree();
    let sub = MenuItem::Submenu(named(40, "View").help("What is shown".to_string()));
    assert_eq!(
        menu.insert_call(2, &sub),
        NativeCall::InsertSubmenu {
            menu: 10,
            index: 2,
            submenu: 40,
            name: "View".to_string(),
            help: Some("What is shown".to_string()),
        }
    );
    let bare = MenuItem::Submenu(named(41, "Tools"));
    assert_eq!(
        menu.insert_call(4, &bare),
        NativeCall::InsertSubmenu {
            menu: 10,
            index: 4,
            submenu: 41,
            name: "Tools".to_string(),
            help: None,
        }
    );
}

#[test]
fn inserting_a_separator_asks_for_a_separator() {
    let menu = tree();
    assert_eq!(
        menu.insert_call(1, &MenuItem::Separator),
        NativeCall::InsertSeparatorToMenu { menu: 10, index: 1 }
    );
}

#[test]
fn an_inserted_entry_records_the_number_of_the_toolkit() {
    let mut menu = named(10, "File");
    menu.insert(0, entry(Action::Open, "Open"), 4711);
    assert_eq!(menu.len(), 1);
    assert_eq!(entry_at(&menu, 0), (Action::Open, 4711, "Open".to_string()));
    assert_eq!(menu.get_entry_from_event_id(4711), Some(Action::Open));
    assert_eq!(menu.get_entry_from_event_id(0), None);
}

#[test]
fn inserting_in_the_middle_shifts_the_items_behind() {
    let mut menu = named(10, "File");
    menu.insert(0, entry(Action::Open, "Open"), 1);
    menu.insert(1, entry(Action::Save, "Save"), 2);
    menu.insert(1, entry(Action::Copy, "Copy"), 3);
    menu.insert(0, MenuItem::Separator, 99);
    assert_eq!(menu.len(), 4);
    assert!(matches!(menu.item(0), MenuItem::Separator));
    assert_eq!(entry_at(&menu, 1), (Action::Open, 1, "Open".to_string()));
    assert_eq!(entry_at(&menu, 2), (Action::Copy, 3, "Copy".to_string()));
    assert_eq!(entry_at(&menu, 3), (Action::Save, 2, "Save".to_string()));
    assert_eq!(menu.get_entry_from_event_id(99), None);
}

#[test]
fn every_inserted_entry_is_found_by_its_number() {
    let ids = [Action::Open, Action::Save, Action::Copy, Action::Paste, Action::Zoom];
    let orders: [[usize; 5]; 4] = [[0, 1, 2, 3, 4], [0, 0, 0, 0, 0], [0, 1, 1, 0, 2], [0, 0, 2, 1, 4]];
    for order in orders {
        let mut menu = named(10, "File");
        for (k, at) in order.iter().enumerate() {
            menu.insert(*at, entry(ids[k], "entry"), 500 + k as i32);
        }
        assert_eq!(menu.len(), 5);
        for (k, id) in ids.iter().enumerate() {
            assert_eq!(menu.get_entry_from_event_id(500 + k as i32), Some(*id));
        }
        assert_eq!(menu.get_entry_from_event_id(505), None);
    }
}

#[test]
fn entries_of_submenus_are_found_by_their_numbers() {
    let menu = tree();
    assert_eq!(menu.get_entry_from_event_id(101), Some(Action::Open));
    assert_eq!(menu.get_entry_from_event_id(201), Some(Action::Copy));
    assert_eq!(menu.get_entry_from_event_id(301), Some(Action::Zoom));
    assert_eq!(menu.get_entry_from_event_id(202), Some(Action::Paste));
    assert_eq!(menu.get_entry_from_event_id(102), Some(Action::Save));
    assert_eq!(menu.get_entry_from_event_id(0), None);
    assert_eq!(menu.get_entry_from_event_id(-1), None);
}

#[test]
fn a_number_that_two_entries_carry_finds_the_first_depth_first() {
    let sub = named(20, "Edit").push_entry(MenuEntry::new(Action::Copy, "Copy".to_string()), 5);
    let menu = named(10, "File")
        .push_submenu(sub)
        .push_entry(MenuEntry::new(Action::Save, "Save".to_string()), 5);
    assert_eq!(menu.get_entry_from_event_id(5), Some(Action::Copy));
    let sub = named(20, "Edit").push_entry(MenuEntry::new(Action::Copy, "Copy".to_string()), 5);
    let menu = named(10, "File")
        .push_entry(MenuEntry::new(Action::Save, "Save".to_string()), 5)
        .push_submenu(sub);
    assert_eq!(menu.get_entry_from_event_id(5), Some(Action::Save));
}

#[test]
fn removing_an_item_moves_the_items_behind_it_up() {
    let mut menu = named(10, "File");
    menu.insert(0, entry(Action::Open, "Open"), 1);
    menu.insert(1, entry(Action::Save, "Save"), 2);
    menu.insert(2, entry(Action::Copy, "Copy"), 3);
    menu.insert(3, entry(Action::Paste, "Paste"), 4);
    let calls = menu.remove(1);
    assert_eq!(calls, vec![NativeCall::RemoveFromMenu { menu: 10, index: 1 }]);
    assert_eq!(menu.len(), 3);
    assert_eq!(entry_at(&menu, 0), (Action::Open, 1, "Open".to_string()));
    assert_eq!(entry_at(&menu, 1), (Action::Copy, 3, "Copy".to_string()));
    assert_eq!(entry_at(&menu, 2), (Action::Paste, 4, "Paste".to_string()));
    assert_eq!(menu.get_entry_from_event_id(2), None);
    assert_eq!(menu.get_entry_from_event_id(3), Some(Action::Copy));
    assert_eq!(menu.get_entry_from_event_id(4), Some(Action::Paste));
}

#[test]
fn removing_the_last_and_the_only_item() {
    let mut menu = named(10, "File");
    menu.insert(0, entry(Action::Open, "Open"), 1);
    menu.insert(1, MenuItem::Separator, 0);
    assert_eq!(menu.remove(1), vec![NativeCall::RemoveFromMenu { menu: 10, index: 1 }]);
    assert_eq!(menu.remove(0), vec![NativeCall::RemoveFromMenu { menu: 10, index: 0 }]);
    assert_eq!(menu.len(), 0);
    assert_eq!(menu.get_entry_from_event_id(1), None);
}

#[test]
fn removing_a_submenu_destroys_its_menus_leaves_first() {
    let mut menu = tree();
    let calls = menu.remove(1);
    assert_eq!(
        calls,
        vec![
            NativeCall::RemoveFromMenu { menu: 10, index: 1 },
            NativeCall::DeleteMenu { menu: 30 },
            NativeCall::DeleteMenu { menu: 20 },
        ]
    );
    assert_eq!(menu.len(), 3);
    assert_eq!(menu.get_entry_from_event_id(201), None);
    assert_eq!(menu.get_entry_from_event_id(301), None);
    assert_eq!(menu.get_entry_from_event_id(102), Some(Action::Save));
    assert_eq!(entry_at(&menu, 2), (Action::Save, 102, "Save".to_string()));
}

#[test]
fn destroying_a_menu_destroys_the_menus_below_it_first() {
    assert_eq!(named(10, "File").destroy(), vec![NativeCall::DeleteMenu { menu: 10 }]);
    assert_eq!(
        tree().destroy(),
        vec![
            NativeCall::DeleteMenu { menu: 30 },
            NativeCall::DeleteMenu { menu: 20 },
            NativeCall::DeleteMenu { menu: 10 },
        ]
    );
    let two = named(1, "A").push_submenu(named(2, "B")).push_submenu(
        named(3, "C").push_submenu(named(4, "D")).push_submenu(named(5, "E")),
    );
    assert_eq!(
        two.destroy(),
        vec![
            NativeCall::DeleteMenu { menu: 2 },
            NativeCall::DeleteMenu { menu: 4 },
            NativeCall::DeleteMenu { menu: 5 },
            NativeCall::DeleteMenu { menu: 3 },
            NativeCall::DeleteMenu { menu: 1 },
        ]
    );
}

#[test]
fn items_are_enabled_and_disabled_by_position() {
    let menu = tree();
    assert_eq!(
        menu.enable_item(3),
        NativeCall::EnableMenuItem { menu: 10, index: 3, enable: true }
    );
    assert_eq!(
        menu.disable_item(0),
        NativeCall::EnableMenuItem { menu: 10, index: 0, enable: false }
    );
}

#[test]
fn an_entry_of_a_submenu_is_enabled_where_it_sits() {
    let menu = tree();
    assert_eq!(
        menu.enable_item_by_id(Action::Paste),
        Some(NativeCall::EnableMenuItem { menu: 20, index: 2, enable: true })
    );
    assert_eq!(
        menu.disable_item_by_id(Action::Paste),
        Some(NativeCall::EnableMenuItem { menu: 20, index: 2, enable: false })
    );
    assert_eq!(
        menu.disable_item_by_id(Action::Zoom),
        Some(NativeCall::EnableMenuItem { menu: 30, index: 0, enable: false })
    );
    assert_eq!(
        menu.enable_item_by_id(Action::Save),
        Some(NativeCall::EnableMenuItem { menu: 10, index: 3, enable: true })
    );
    assert_eq!(
        menu.enable_item_by_id(Action::Open),
        Some(NativeCall::EnableMenuItem { menu: 10, index: 0, enable: true })
    );
}

#[test]
fn an_identifier_that_no_entry_has_enables_nothing() {
    let menu = named(20, "Edit").push_entry(MenuEntry::new(Action::Copy, "Copy".to_string()), 1);
    assert_eq!(menu.enable_item_by_id(Action::Paste), None);
    assert_eq!(menu.disable_item_by_id(Action::Paste), None);
    let empty: Menu<Action> = Menu::new(1, None);
    assert_eq!(empty.enable_item_by_id(Action::Copy), None);
}

#[test]
fn an_identifier_that_two_entries_have_names_the_first_depth_first() {
    let sub = named(20, "Edit")
        .push_separator()
        .push_entry(MenuEntry::new(Action::Copy, "Copy".to_string()), 1);
    let menu = named(10, "File")
        .push_entry(MenuEntry::new(Action::Open, "Open".to_string()), 2)
        .push_submenu(sub)
        .push_entry(MenuEntry::new(Action::Copy, "Copy again".to_string()), 3);
    assert_eq!(
        menu.enable_item_by_id(Action::Copy),
        Some(NativeCall::EnableMenuItem { menu: 20, index: 1, enable: true })
    );
    let menu = named(10, "File")
        .push_entry(MenuEntry::new(Action::Copy, "Copy".to_string()), 2)
        .push_entry(MenuEntry::new(Action::Copy, "Copy again".to_string()), 3);
    assert_eq!(
        menu.disable_item_by_id(Action::Copy),
        Some(NativeCall::EnableMenuItem { menu: 10, index: 0, enable: false })
    );
}

#[test]
fn a_menu_pops_up_by_its_handle() {
    let popup: Menu<Action> = Menu::new(77, None);
    assert_eq!(popup.popup(), NativeCall::SetStatusMenu { menu: 77 });
}

#[test]
fn builders_put_items_at_the_end() {
    let menu = tree();
    assert_eq!(menu.len(), 4);
    assert_eq!(entry_at(&menu, 0), (Action::Open, 101, "Open".to_string()));
    match menu.item(1) {
        MenuItem::Submenu(edit) => {
            assert_eq!(edit.handle(), 20);
            assert_eq!(edit.len(), 3);
            assert_eq!(entry_at(edit, 2), (Action::Paste, 202, "Paste".to_string()));
        }
        other => panic!("no submenu: {:?}", other),
    }
    assert!(matches!(menu.item(2), MenuItem::Separator));
    assert_eq!(entry_at(&menu, 3), (Action::Save, 102, "Save".to_string()));
}

#[derive(Debug, Clone, PartialEq)]
enum Held {
    Entry,
    Submenu(usize),
    Separator,
}

/// Carries the calls out on a copy of what the native menu holds.
fn carry_out(menu: usize, native: &mut Vec<Held>, calls: &[NativeCall]) {
    for call in calls {
        match call {
            NativeCall::InsertToMenu { menu: target, index, .. } if *target == menu => {
                assert!(*index <= native.len());
                native.insert(*index, Held::Entry);
            }
            NativeCall::InsertSubmenu { menu: target, index, submenu, .. } if *target == menu => {
                assert!(*index <= native.len());
                native.insert(*index, Held::Submenu(*submenu));
            }
            NativeCall::InsertSeparatorToMenu { menu: target, index } if *target == menu => {
                assert!(*index <= native.len());
                native.insert(*index, Held::Separator);
            }
            NativeCall::RemoveFromMenu { menu: target, index } if *target == menu => {
                assert!(*index < native.len());
                native.remove(*index);
            }
            NativeCall::EnableMenuItem { menu: target, index, .. } if *target == menu => {
                assert!(*index < native.len());
            }
            _ => (),
        }
    }
}

fn held(menu: &Menu<Action>) -> Vec<Held> {
    (0..menu.len())
        .map(|i| match menu.item(i) {
            MenuItem::Entry(_) => Held::Entry,
            MenuItem::Submenu(sub) => Held::Submenu(sub.handle()),
            MenuItem::Separator => Held::Separator,
        })
        .collect()
}

#[test]
fn the_native_menu_follows_every_operation() {
    let mut menu = named(10, "File");
    let mut native: Vec<Held> = Vec::new();
    let items = vec![
        (0, entry(Action::Open, "Open")),
        (0, MenuItem::Separator),
        (1, MenuItem::Submenu(named(20, "Edit").push_submenu(named(30, "More")))),
        (3, entry(Action::Save, "Save")),
        (2, MenuItem::Submenu(named(40, "View"))),
    ];
    for (k, (at, item)) in items.into_iter().enumerate() {
        let call = menu.insert_call(at, &item);
        carry_out(10, &mut native, &[call]);
        menu.insert(at, item, 100 + k as i32);
        assert_eq!(native, held(&menu));
    }
    assert_eq!(
        native,
        vec![Held::Separator, Held::Submenu(20), Held::Submenu(40), Held::Entry, Held::Entry]
    );
    carry_out(10, &mut native, &[menu.enable_item(4), menu.disable_item(0)]);
    for at in [1usize, 3, 0, 1, 0] {
        let calls = menu.remove(at);
        carry_out(10, &mut native, &calls);
        assert_eq!(native, held(&menu));
    }
    assert_eq!(menu.len(), 0);
    assert_eq!(native, vec![]);
}
