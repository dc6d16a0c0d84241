//! What the toolkit holds while it mirrors the menus of the application.
//!
//! A native menu is followed as the sequence of what stands at its positions,
//! a native menu bar as the sequence of the handles of its menus. A call
//! changes the sequence of the menu or bar that it names, and is refused
//! where it names a position that is not there. The functions here say of the
//! calls that this crate hands out what they do to a toolkit that behaves so.

use crate::menu_view::{delete_calls, item_deletions, ItemView, MenuView};
use crate::native::NativeCallView;
use vstd::prelude::*;

verus! {

/// What stands at one position of a native menu.
pub enum NativeItem {
    Entry,
    Submenu(usize),
    Separator,
}

/// What a native menu holds at a position for an item of the menu.
pub open spec fn native_item<T>(item: ItemView<T>) -> NativeItem {
    match item {
        ItemView::Entry(_) => NativeItem::Entry,
        ItemView::Submenu(sub) => NativeItem::Submenu(sub.handle),
        ItemView::Separator => NativeItem::Separator,
    }
}

/// What the native counterpart of a menu holds while it mirrors the menu.
pub open spec fn native_items<T>(menu: MenuView<T>) -> Seq<NativeItem> {
    Seq::new(menu.items.len(), |k: int| native_item(menu.items[k]))
}

/// The items of a native menu after a call. A call that names another menu,
/// or that is not about the items of a menu, leaves them as they are; one
/// that names a position which the menu does not have is refused.
pub open spec fn menu_after_call(menu: usize, items: Seq<NativeItem>, call: NativeCallView) -> Option<
    Seq<NativeItem>,
> {
    match call {
        NativeCallView::InsertToMenu { menu: target, index, name, help } => if target != menu {
            Some(items)
        } else if 0 <= index <= items.len() {
            Some(items.insert(index, NativeItem::Entry))
        } else {
            None
        },
        NativeCallView::InsertSubmenu {
            menu: target,
            index,
            submenu,
            name,
            help,
        } => if target != menu {
            Some(items)
        } else if 0 <= index <= items.len() {
            Some(items.insert(index, NativeItem::Submenu(submenu)))
        } else {
            None
        },
        NativeCallView::InsertSeparatorToMenu { menu: target, index } => if target != menu {
            Some(items)
        } else if 0 <= index <= items.len() {
            Some(items.insert(index, NativeItem::Separator))
        } else {
            None
        },
        NativeCallView::RemoveFromMenu { menu: target, index } => if target != menu {
            Some(items)
        } else if 0 <= index < items.len() {
            Some(items.remove(index))
        } else {
            None
        },
        NativeCallView::EnableMenuItem { menu: target, index, enable } => if target != menu {
            Some(items)
        } else if 0 <= index < items.len() {
            Some(items)
        } else {
            None
        },
        _ => Some(items),
    }
}

/// The items of a native menu after a list of calls carried out in order;
/// nothing if one of them is refused.
pub open spec fn menu_after_calls(menu: usize, items: Seq<NativeItem>, calls: Seq<NativeCallView>)
    -> Option<Seq<NativeItem>>
    decreases calls.len(),
{
    if calls.len() == 0 {
        Some(items)
    } else {
        match menu_after_call(menu, items, calls[0]) {
            Some(next) => menu_after_calls(menu, next, calls.drop_first()),
            None => None,
        }
    }
}

/// Carrying out two lists of calls in a row is carrying out the first and
/// then, on what it left, the second.
pub proof fn lemma_menu_after_calls_add(
    menu: usize,
    items: Seq<NativeItem>,
    a: Seq<NativeCallView>,
    b: Seq<NativeCallView>,
)
    ensures
        menu_after_calls(menu, items, a + b) == (match menu_after_calls(menu, items, a) {
            Some(next) => menu_after_calls(menu, next, b),
            None => None,
        }),
    decreases a.len(),
{
    if a.len() == 0 {
        assert(a + b =~= b);
    } else {
        assert((a + b)[0] == a[0]);
        assert((a + b).drop_first() =~= a.drop_first() + b);
        match menu_after_call(menu, items, a[0]) {
            Some(next) => lemma_menu_after_calls_add(menu, next, a.drop_first(), b),
            None => {},
        }
    }
}

/// Destroying menus leaves the items of a native menu as they are.
pub proof fn lemma_deleting_keeps_menu(menu: usize, items: Seq<NativeItem>, handles: Seq<usize>)
    ensures
        menu_after_calls(menu, items, delete_calls(handles)) == Some(items),
    decreases handles.len(),
{
    let calls = delete_calls(handles);
    if handles.len() > 0 {
        assert(calls.drop_first() =~= delete_calls(handles.drop_first()));
        lemma_deleting_keeps_menu(menu, items, handles.drop_first());
    }
}

/// Inserting an item into a menu and carrying out the call for it leaves the
/// native menu with the item's counterpart at the same position.
pub proof fn lemma_insertion_on_native_menu<T>(menu: MenuView<T>, i: int, item: ItemView<T>)
    requires
        0 <= i <= menu.items.len(),
    ensures
        menu_after_call(menu.handle, native_items(menu), menu.insert_call(i, item)) == Some(
            native_items(menu.with_item(i, item)),
        ),
{
    assert(native_items(menu).insert(i, native_item(item)) =~= native_items(
        menu.with_item(i, item),
    ));
}

/// Removing an item from a menu and carrying out the calls for it leaves
/// the native menu without its counterpart.
pub proof fn lemma_removal_on_native_menu<T>(menu: MenuView<T>, i: int)
    requires
        0 <= i < menu.items.len(),
    ensures
        menu_after_calls(menu.handle, native_items(menu), menu.remove_calls(i)) == Some(
            native_items(menu.without_item(i)),
        ),
{
    let first = seq![NativeCallView::RemoveFromMenu { menu: menu.handle, index: i }];
    let rest = delete_calls(item_deletions(menu.items[i]));
    let left = native_items(menu).remove(i);
    assert(left =~= native_items(menu.without_item(i)));
    assert(first.drop_first() =~= Seq::<NativeCallView>::empty());
    assert(menu_after_calls(menu.handle, left, first.drop_first()) == Some(left));
    assert(menu_after_calls(menu.handle, native_items(menu), first) == Some(left));
    lemma_menu_after_calls_add(menu.handle, native_items(menu), first, rest);
    lemma_deleting_keeps_menu(menu.handle, left, item_deletions(menu.items[i]));
}

/// The menus of a native menu bar after a call, as the handles of the menus
/// in order. A call that names another bar, or that is not about the menus
/// of a bar, leaves them as they are; one that names a position which the
/// bar does not have is refused.
pub open spec fn bar_after_call(bar: usize, menus: Seq<usize>, call: NativeCallView) -> Option<
    Seq<usize>,
> {
    match call {
        NativeCallView::InsertToMenuBar { bar: target, menu, index, name } => if target != bar {
            Some(menus)
        } else if 0 <= index <= menus.len() {
            Some(menus.insert(index, menu))
        } else {
            None
        },
        NativeCallView::RemoveFromMenuBar { bar: target, index } => if target != bar {
            Some(menus)
        } else if 0 <= index < menus.len() {
            Some(menus.remove(index))
        } else {
            None
        },
        _ => Some(menus),
    }
}

/// The menus of a native menu bar after a list of calls carried out in
/// order; nothing if one of them is refused.
pub open spec fn bar_after_calls(bar: usize, menus: Seq<usize>, calls: Seq<NativeCallView>) -> Option<
    Seq<usize>,
>
    decreases calls.len(),
{
    if calls.len() == 0 {
        Some(menus)
    } else {
        match bar_after_call(bar, menus, calls[0]) {
            Some(next) => bar_after_calls(bar, next, calls.drop_first()),
            None => None,
        }
    }
}

/// Carrying out two lists of calls in a row is carrying out the first and
/// then, on what it left, the second.
pub proof fn lemma_bar_after_calls_add(
    bar: usize,
    menus: Seq<usize>,
    a: Seq<NativeCallView>,
    b: Seq<NativeCallView>,
)
    ensures
        bar_after_calls(bar, menus, a + b) == (match bar_after_calls(bar, menus, a) {
            Some(next) => bar_after_calls(bar, next, b),
            None => None,
        }),
    decreases a.len(),
{
    if a.len() == 0 {
        assert(a + b =~= b);
    } else {
        assert((a + b)[0] == a[0]);
        assert((a + b).drop_first() =~= a.drop_first() + b);
        match bar_after_call(bar, menus, a[0]) {
            Some(next) => lemma_bar_after_calls_add(bar, next, a.drop_first(), b),
            None => {},
        }
    }
}

/// Destroying menus leaves the menus of a native bar as they are.
pub proof fn lemma_deleting_keeps_bar(bar: usize, menus: Seq<usize>, handles: Seq<usize>)
    ensures
        bar_after_calls(bar, menus, delete_calls(handles)) == Some(menus),
    decreases handles.len(),
{
    let calls = delete_calls(handles);
    if handles.len() > 0 {
        assert(calls.drop_first() =~= delete_calls(handles.drop_first()));
        lemma_deleting_keeps_bar(bar, menus, handles.drop_first());
    }
}

} // verus!
