use wx_rs::{Menu, MenuBar, MenuEntry, NativeCall};

fn menu(handle: usize, name: &str, first_number: i32, entries: &[u32]) -> Menu<u32> {
    let mut menu = Menu::new(handle, Some(name.to_string()));
    for (k, id) in entries.iter().enumerate() {
        menu = menu.push_entry(MenuEntry::new(*id, format!("entry {}", id)), first_number + k as i32);
    }
    menu
}

/// Carries the calls out on a copy of what the native bar holds.
fn carry_out(bar: usize, native: &mut Vec<usize>, calls: &[NativeCall]) {
    for call in calls {
        match call {
            NativeCall::InsertToMenuBar { bar: target, menu, index, .. } if *target == bar => {
                assert!(*index <= native.len());
                native.insert(*index, *menu);
            }
            NativeCall::RemoveFromMenuBar { bar: target, index } if *target == bar => {
                assert!(*index < native.len());
                native.remove(*index);
            }
            _ => (),
        }
    }
}

#[test]
fn a_new_bar_is_empty() {
    let bar: MenuBar<u32> = MenuBar::new(1);
    assert_eq!(bar.len(), 0);
    assert_eq!(bar.handle(), 1);
    assert_eq!(bar.get_entry_from_event_id(0), None);
    assert_eq!(bar.show(), NativeCall::SetMenuBar { bar: 1 });
}

#[test]
fn appending_puts_a_menu_at_the_end() {
    let mut bar: MenuBar<u32> = MenuBar::new(1);
    assert_eq!(
        bar.append(menu(10, "File", 100, &[1, 2])),
        NativeCall::InsertToMenuBar { bar: 1, menu: 10, index: 0, name: "File".to_string() }
    );
    assert_eq!(
        bar.append(menu(20, "Edit", 200, &[3])),
        NativeCall::InsertToMenuBar { bar: 1, menu: 20, index: 1, name: "Edit".to_string() }
    );
    assert_eq!(bar.len(), 2);
    assert_eq!(bar.menu(0).handle(), 10);
    assert_eq!(bar.menu(1).handle(), 20);
}

#[test]
fn a_menu_without_a_name_stands_under_default() {
    let mut bar: MenuBar<u32> = MenuBar::new(1);
    assert_eq!(
        bar.append(Menu::new(10, None)),
        NativeCall::InsertToMenuBar { bar: 1, menu: 10, index: 0, name: "Default".to_string() }
    );
    assert_eq!(
        bar.insert(Menu::new(11, None), 0),
        NativeCall::InsertToMenuBar { bar: 1, menu: 11, index: 0, name: "Default".to_string() }
    );
}

#[test]
fn inserting_puts_a_menu_at_its_position() {
    let mut bar: MenuBar<u32> = MenuBar::new(1);
    bar.append(menu(10, "File", 100, &[1]));
    bar.append(menu(30, "Help", 300, &[3]));
    assert_eq!(
        bar.insert(menu(20, "Edit", 200, &[2]), 1),
        NativeCall::InsertToMenuBar { bar: 1, menu: 20, index: 1, name: "Edit".to_string() }
    );
    assert_eq!(bar.len(), 3);
    assert_eq!(bar.menu(0).handle(), 10);
    assert_eq!(bar.menu(1).handle(), 20);
    assert_eq!(bar.menu(2).handle(), 30);
}

#[test]
fn entries_are_found_across_the_menus_of_a_bar() {
    let mut bar: MenuBar<u32> = MenuBar::new(1);
    bar.append(menu(10, "File", 100, &[1, 2]));
    bar.append(menu(20, "Edit", 200, &[3]).push_submenu(menu(21, "More", 210, &[4, 5])));
    assert_eq!(bar.get_entry_from_event_id(100), Some(1));
    assert_eq!(bar.get_entry_from_event_id(101), Some(2));
    assert_eq!(bar.get_entry_from_event_id(200), Some(3));
    assert_eq!(bar.get_entry_from_event_id(210), Some(4));
    assert_eq!(bar.get_entry_from_event_id(211), Some(5));
    assert_eq!(bar.get_entry_from_event_id(212), None);
}

#[test]
fn a_number_in_two_menus_finds_the_entry_of_the_first() {
    let mut bar: MenuBar<u32> = MenuBar::new(1);
    bar.append(menu(10, "File", 100, &[1]));
    bar.append(menu(20, "Edit", 100, &[2]));
    assert_eq!(bar.get_entry_from_event_id(100), Some(1));
}

#[test]
fn removing_a_menu_destroys_it_and_what_is_below_it() {
    let mut bar: MenuBar<u32> = MenuBar::new(1);
    bar.append(menu(10, "File", 100, &[1]));
    bar.append(menu(20, "Edit", 200, &[2]).push_submenu(menu(21, "More", 210, &[3])));
    bar.append(menu(30, "Help", 300, &[4]));
    assert_eq!(
        bar.remove(1),
        vec![
            NativeCall::RemoveFromMenuBar { bar: 1, index: 1 },
            NativeCall::DeleteMenu { menu: 21 },
            NativeCall::DeleteMenu { menu: 20 },
        ]
    );
    assert_eq!(bar.len(), 2);
    assert_eq!(bar.menu(0).handle(), 10);
    assert_eq!(bar.menu(1).handle(), 30);
    assert_eq!(bar.get_entry_from_event_id(200), None);
    assert_eq!(bar.get_entry_from_event_id(300), Some(4));
}

#[test]
fn clearing_an_empty_bar_asks_for_nothing() {
    let mut bar: MenuBar<u32> = MenuBar::new(1);
    assert_eq!(bar.clear(), vec![]);
    assert_eq!(bar.len(), 0);
}

#[test]
fn clearing_a_bar_of_one_menu() {
    let mut bar: MenuBar<u32> = MenuBar::new(1);
    bar.append(menu(10, "File", 100, &[1]));
    assert_eq!(
        bar.clear(),
        vec![
            NativeCall::RemoveFromMenuBar { bar: 1, index: 0 },
            NativeCall::DeleteMenu { menu: 10 },
        ]
    );
    assert_eq!(bar.len(), 0);
    assert_eq!(bar.get_entry_from_event_id(100), None);
}

#[test]
fn clearing_takes_the_menus_out_from_the_last_to_the_first() {
    let mut bar: MenuBar<u32> = MenuBar::new(1);
    bar.append(menu(10, "File", 100, &[1]));
    bar.append(menu(20, "Edit", 200, &[2]).push_submenu(menu(21, "More", 210, &[3])));
    bar.append(menu(30, "Help", 300, &[4]));
    assert_eq!(
        bar.clear(),
        vec![
            NativeCall::RemoveFromMenuBar { bar: 1, index: 2 },
            NativeCall::DeleteMenu { menu: 30 },
            NativeCall::RemoveFromMenuBar { bar: 1, index: 1 },
            NativeCall::DeleteMenu { menu: 21 },
            NativeCall::DeleteMenu { menu: 20 },
            NativeCall::RemoveFromMenuBar { bar: 1, index: 0 },
            NativeCall::DeleteMenu { menu: 10 },
        ]
    );
    assert_eq!(bar.len(), 0);
}

#[test]
fn the_native_bar_follows_every_operation() {
    for count in [0usize, 1, 2, 5] {
        let mut bar: MenuBar<u32> = MenuBar::new(9);
        let mut native: Vec<usize> = Vec::new();
        for k in 0..count {
            let mut next = menu(100 + k, "Menu", 10 * k as i32, &[k as u32]);
            if k % 2 == 1 {
                next = next.push_submenu(menu(200 + k, "Sub", 1000 + k as i32, &[50]));
            }
            let call = if k % 2 == 0 { bar.append(next) } else { bar.insert(next, k / 2) };
            carry_out(9, &mut native, &[call]);
            let held: Vec<usize> = (0..bar.len()).map(|i| bar.menu(i).handle()).collect();
            assert_eq!(native, held);
        }
        assert_eq!(native.len(), count);
        if count > 2 {
            let calls = bar.remove(1);
            carry_out(9, &mut native, &calls);
            let held: Vec<usize> = (0..bar.len()).map(|i| bar.menu(i).handle()).collect();
            assert_eq!(native, held);
        }
        let calls = bar.clear();
        carry_out(9, &mut native, &calls);
        assert_eq!(bar.len(), 0);
        assert_eq!(native, Vec::<usize>::new());
    }
}

#[test]
fn destroying_a_bar_clears_it_first() {
    let mut bar: MenuBar<u32> = MenuBar::new(1);
    bar.append(menu(10, "File", 100, &[1]).push_submenu(menu(11, "Recent", 110, &[])));
    bar.append(menu(20, "Edit", 200, &[2]));
    assert_eq!(
        bar.destroy(),
        vec![
            NativeCall::RemoveFromMenuBar { bar: 1, index: 1 },
            NativeCall::DeleteMenu { menu: 20 },
            NativeCall::RemoveFromMenuBar { bar: 1, index: 0 },
            NativeCall::DeleteMenu { menu: 11 },
            NativeCall::DeleteMenu { menu: 10 },
            NativeCall::DeleteMenuBar { bar: 1 },
        ]
    );
    let empty: MenuBar<u32> = MenuBar::new(2);
    assert_eq!(empty.destroy(), vec![NativeCall::DeleteMenuBar { bar: 2 }]);
}
