//! What a menu tree holds, and what is looked up in it.
//!
//! A menu is modelled by its handle, its texts and the sequence of its
//! items. Both ways of looking an entry up, by the number that the toolkit
//! gave it and by the identifier that the application chose, go over the
//! same list: the entries of the tree with their places, depth first.

use crate::native::NativeCallView;
use vstd::prelude::*;
use vstd::std_specs::cmp::PartialEqSpec;

verus! {

/// What an entry holds: the identifier that the application chose, the
/// number by which the toolkit names the entry in menu events, and its texts.
pub struct EntryView<T> {
    pub id: T,
    pub event_id: i32,
    pub name: Seq<char>,
    pub help: Option<Seq<char>>,
}

/// What a menu item holds.
pub enum ItemView<T> {
    Submenu(MenuView<T>),
    Entry(EntryView<T>),
    Separator,
}

/// What a menu holds: the handle of its native counterpart, its texts and
/// its items in order.
pub struct MenuView<T> {
    pub handle: usize,
    pub name: Option<Seq<char>>,
    pub items: Seq<ItemView<T>>,
    pub help: Option<Seq<char>>,
}

/// The place of an entry in a menu tree: the menu that owns it, its position
/// among that menu's items, and the entry itself.
pub struct Slot<T> {
    pub menu: usize,
    pub index: int,
    pub entry: EntryView<T>,
}

/// The entries below the given items of a menu, depth first: the entries of
/// a submenu come before those of the items that follow it. `base` is the
/// position of the first of the items in its menu.
pub open spec fn slots_from<T>(menu: usize, items: Seq<ItemView<T>>, base: int) -> Seq<Slot<T>>
    decreases items,
{
    if items.len() == 0 {
        Seq::empty()
    } else {
        slots_from(menu, items.drop_last(), base) + item_slots(
            menu,
            base + items.len() - 1,
            items.last(),
        )
    }
}

/// The entries that one item of a menu contributes.
pub open spec fn item_slots<T>(menu: usize, index: int, item: ItemView<T>) -> Seq<Slot<T>>
    decreases item,
{
    match item {
        ItemView::Entry(entry) => seq![Slot { menu, index, entry }],
        ItemView::Submenu(sub) => slots_from(sub.handle, sub.items, 0),
        ItemView::Separator => Seq::empty(),
    }
}

/// The first of the slots that is wanted, if any is.
pub open spec fn first_slot<T>(slots: Seq<Slot<T>>, wanted: spec_fn(Slot<T>) -> bool) -> Option<
    Slot<T>,
>
    decreases slots.len(),
{
    if slots.len() == 0 {
        None
    } else if wanted(slots[0]) {
        Some(slots[0])
    } else {
        first_slot(slots.drop_first(), wanted)
    }
}

/// The slots whose entry the toolkit names by `event_id`.
pub open spec fn has_event<T>(event_id: i32) -> spec_fn(Slot<T>) -> bool {
    |slot: Slot<T>| slot.entry.event_id == event_id
}

/// The slots whose entry has an identifier equal to `id`.
pub open spec fn has_id<T: PartialEq>(id: T) -> spec_fn(Slot<T>) -> bool {
    |slot: Slot<T>| slot.entry.id.eq_spec(&id)
}

/// The handles of the menus below the given items, each after the handles
/// of the menus below it.
pub open spec fn deletions_of<T>(items: Seq<ItemView<T>>) -> Seq<usize>
    decreases items,
{
    if items.len() == 0 {
        Seq::empty()
    } else {
        deletions_of(items.drop_last()) + item_deletions(items.last())
    }
}

/// The handles of the menus that go when one item goes, leaves first.
pub open spec fn item_deletions<T>(item: ItemView<T>) -> Seq<usize>
    decreases item,
{
    match item {
        ItemView::Submenu(sub) => deletions_of(sub.items).push(sub.handle),
        ItemView::Entry(_) => Seq::empty(),
        ItemView::Separator => Seq::empty(),
    }
}

/// The calls that destroy the menus with the given handles, in order.
pub open spec fn delete_calls(handles: Seq<usize>) -> Seq<NativeCallView> {
    Seq::new(handles.len(), |k: int| NativeCallView::DeleteMenu { menu: handles[k] })
}

impl<T> ItemView<T> {
    /// Every submenu of the item, at any depth, has a name.
    pub open spec fn wf(self) -> bool
        decreases self,
    {
        match self {
            ItemView::Submenu(sub) => sub.name is Some && sub.wf(),
            ItemView::Entry(_) => true,
            ItemView::Separator => true,
        }
    }

    /// The item as it stands in a menu once the toolkit has answered its
    /// insertion with `event_id`: an entry records the number, other items
    /// have no use for it.
    pub open spec fn with_event_id(self, event_id: i32) -> ItemView<T> {
        match self {
            ItemView::Entry(entry) => ItemView::Entry(EntryView { event_id, ..entry }),
            ItemView::Submenu(sub) => ItemView::Submenu(sub),
            ItemView::Separator => ItemView::Separator,
        }
    }
}

/// The identifier of the first of the slots whose entry the toolkit names by
/// `event_id`.
pub open spec fn event_owner<T>(slots: Seq<Slot<T>>, event_id: i32) -> Option<T> {
    match first_slot(slots, has_event(event_id)) {
        Some(slot) => Some(slot.entry.id),
        None => None,
    }
}

impl<T> MenuView<T> {
    /// Every submenu of the tree has a name.
    pub open spec fn wf(self) -> bool
        decreases self,
    {
        forall|k: int| 0 <= k < self.items.len() ==> (#[trigger] self.items[k]).wf()
    }

    /// The call that inserts `item` at position `i` of the native menu.
    pub open spec fn insert_call(self, i: int, item: ItemView<T>) -> NativeCallView {
        match item {
            ItemView::Submenu(sub) => NativeCallView::InsertSubmenu {
                menu: self.handle,
                index: i,
                submenu: sub.handle,
                name: sub.name->0,
                help: sub.help,
            },
            ItemView::Entry(entry) => NativeCallView::InsertToMenu {
                menu: self.handle,
                index: i,
                name: entry.name,
                help: entry.help,
            },
            ItemView::Separator => NativeCallView::InsertSeparatorToMenu {
                menu: self.handle,
                index: i,
            },
        }
    }

    /// The menu with `item` inserted at position `i`.
    pub open spec fn with_item(self, i: int, item: ItemView<T>) -> MenuView<T> {
        MenuView { items: self.items.insert(i, item), ..self }
    }

    /// The menu without the item at position `i`.
    pub open spec fn without_item(self, i: int) -> MenuView<T> {
        MenuView { items: self.items.remove(i), ..self }
    }

    /// The calls that take the item at position `i` out of the native menu
    /// and destroy the menus that go with it, leaves first.
    pub open spec fn remove_calls(self, i: int) -> Seq<NativeCallView> {
        seq![NativeCallView::RemoveFromMenu { menu: self.handle, index: i }] + delete_calls(
            item_deletions(self.items[i]),
        )
    }

    /// The handles of the menus of the tree in the order in which they are
    /// destroyed: every menu after the menus below it.
    pub open spec fn deletions(self) -> Seq<usize> {
        deletions_of(self.items).push(self.handle)
    }

    /// Every entry of the tree with its place, depth first.
    pub open spec fn slots(self) -> Seq<Slot<T>> {
        slots_from(self.handle, self.items, 0)
    }

    /// The identifier of the first entry, depth first, that the toolkit names
    /// by `event_id`.
    pub open spec fn entry_from_event_id(self, event_id: i32) -> Option<T> {
        event_owner(self.slots(), event_id)
    }
}

impl<T: PartialEq> MenuView<T> {
    /// The call that enables or disables the first entry, depth first, whose
    /// identifier equals `id`: it names the menu that owns the entry and the
    /// entry's position there. No call where no entry has the identifier.
    pub open spec fn enable_call_by_id(self, id: T, enable: bool) -> Option<NativeCallView> {
        match first_slot(self.slots(), has_id(id)) {
            Some(slot) => Some(
                NativeCallView::EnableMenuItem { menu: slot.menu, index: slot.index, enable },
            ),
            None => None,
        }
    }
}

/// Some slot is position `index` of the menu with the handle `menu`.
pub open spec fn names_slot<T>(slots: Seq<Slot<T>>, menu: usize, index: int) -> bool {
    exists|k: int|
        0 <= k < slots.len() && (#[trigger] slots[k]).menu == menu && slots[k].index == index
}

/// The first wanted slot of two lists in a row is that of the first list,
/// and that of the second where the first has none.
pub proof fn lemma_first_slot_add<T>(
    a: Seq<Slot<T>>,
    b: Seq<Slot<T>>,
    wanted: spec_fn(Slot<T>) -> bool,
)
    ensures
        first_slot(a + b, wanted) == (match first_slot(a, wanted) {
            Some(slot) => Some(slot),
            None => first_slot(b, wanted),
        }),
    decreases a.len(),
{
    if a.len() == 0 {
        assert(a + b =~= b);
    } else {
        assert((a + b)[0] == a[0]);
        assert((a + b).drop_first() =~= a.drop_first() + b);
        lemma_first_slot_add(a.drop_first(), b, wanted);
    }
}

/// The slots of two runs of items in a row are the slots of the first run
/// followed by those of the second.
pub proof fn lemma_slots_from_add<T>(
    menu: usize,
    a: Seq<ItemView<T>>,
    b: Seq<ItemView<T>>,
    base: int,
)
    ensures
        slots_from(menu, a + b, base) == slots_from(menu, a, base) + slots_from(
            menu,
            b,
            base + a.len(),
        ),
    decreases b.len(),
{
    if b.len() == 0 {
        assert(a + b =~= a);
        assert(slots_from(menu, a, base) + Seq::<Slot<T>>::empty() =~= slots_from(menu, a, base));
    } else {
        assert((a + b).drop_last() =~= a + b.drop_last());
        assert((a + b).last() == b.last());
        lemma_slots_from_add(menu, a, b.drop_last(), base);
        let last = item_slots(menu, base + a.len() + b.len() - 1, b.last());
        assert((slots_from(menu, a, base) + slots_from(menu, b.drop_last(), base + a.len()))
            + last =~= slots_from(menu, a, base) + (slots_from(
            menu,
            b.drop_last(),
            base + a.len(),
        ) + last));
    }
}

/// The calls that destroy two lists of menus in a row are the calls for the
/// first list followed by those for the second.
pub proof fn lemma_delete_calls_add(a: Seq<usize>, b: Seq<usize>)
    ensures
        delete_calls(a + b) == delete_calls(a) + delete_calls(b),
{
    assert(delete_calls(a + b) =~= delete_calls(a) + delete_calls(b));
}

/// A list of one slot holds a wanted slot exactly if that one is wanted.
pub proof fn lemma_first_slot_single<T>(slot: Slot<T>, wanted: spec_fn(Slot<T>) -> bool)
    ensures
        first_slot(seq![slot], wanted) == (if wanted(slot) {
            Some(slot)
        } else {
            None
        }),
{
    let one = seq![slot];
    assert(one[0] == slot);
    assert(one.drop_first().len() == 0);
    assert(first_slot(one.drop_first(), wanted) is None);
}

/// Searching the first `i + 1` items of a menu: what the first `i` items
/// hold comes first, then what item `i` holds.
pub proof fn lemma_search_step<T>(
    menu: usize,
    items: Seq<ItemView<T>>,
    i: int,
    wanted: spec_fn(Slot<T>) -> bool,
)
    requires
        0 <= i < items.len(),
    ensures
        first_slot(slots_from(menu, items.take(i + 1), 0), wanted) == (match first_slot(
            slots_from(menu, items.take(i), 0),
            wanted,
        ) {
            Some(slot) => Some(slot),
            None => first_slot(item_slots(menu, i, items[i]), wanted),
        }),
{
    let upto = items.take(i + 1);
    assert(upto.drop_last() =~= items.take(i));
    assert(upto.last() == items[i]);
    lemma_first_slot_add(
        slots_from(menu, items.take(i), 0),
        item_slots(menu, i, items[i]),
        wanted,
    );
}

/// A slot found among the first items of a menu is the one found in the
/// whole menu.
pub proof fn lemma_search_prefix<T>(
    menu: usize,
    items: Seq<ItemView<T>>,
    n: int,
    wanted: spec_fn(Slot<T>) -> bool,
)
    requires
        0 <= n <= items.len(),
        first_slot(slots_from(menu, items.take(n), 0), wanted) is Some,
    ensures
        first_slot(slots_from(menu, items, 0), wanted) == first_slot(
            slots_from(menu, items.take(n), 0),
            wanted,
        ),
{
    assert(items =~= items.take(n) + items.skip(n));
    lemma_slots_from_add(menu, items.take(n), items.skip(n), 0);
    lemma_first_slot_add(
        slots_from(menu, items.take(n), 0),
        slots_from(menu, items.skip(n), n),
        wanted,
    );
}

/// The slots of item `i` of a menu stand in a row among the slots of the
/// menu, after the slots of the items before it.
pub proof fn lemma_item_slots_within<T>(menu: usize, items: Seq<ItemView<T>>, i: int, k: int)
    requires
        0 <= i < items.len(),
        0 <= k < item_slots(menu, i, items[i]).len(),
    ensures
        slots_from(menu, items.take(i), 0).len() + k < slots_from(menu, items, 0).len(),
        slots_from(menu, items, 0)[slots_from(menu, items.take(i), 0).len() + k] == item_slots(
            menu,
            i,
            items[i],
        )[k],
{
    let upto = items.take(i + 1);
    assert(upto.drop_last() =~= items.take(i));
    assert(upto.last() == items[i]);
    assert(items =~= upto + items.skip(i + 1));
    lemma_slots_from_add(menu, upto, items.skip(i + 1), 0);
}

} // verus!
