//! What holds of every menu tree: how looking an entry up relates to where
//! it sits, and to the insertions that built the tree.

use crate::menu_view::{
    event_owner, first_slot, has_event, has_id, item_slots, lemma_first_slot_add,
    lemma_first_slot_single, lemma_search_prefix, lemma_search_step, lemma_slots_from_add,
    slots_from, EntryView, ItemView, MenuView, Slot,
};
use crate::native::NativeCallView;
use vstd::prelude::*;
use vstd::std_specs::cmp::PartialEqSpec;

verus! {

/// Slot `k` is wanted and no slot before it is.
pub open spec fn is_first_wanted<T>(
    slots: Seq<Slot<T>>,
    wanted: spec_fn(Slot<T>) -> bool,
    k: int,
) -> bool {
    &&& 0 <= k < slots.len()
    &&& wanted(slots[k])
    &&& forall|j: int| 0 <= j < k ==> !wanted(#[trigger] slots[j])
}

/// The slot that a search gives is wanted and no slot before it is; a search
/// gives nothing only where no slot is wanted.
pub proof fn lemma_first_slot_is_first<T>(slots: Seq<Slot<T>>, wanted: spec_fn(Slot<T>) -> bool)
    ensures
        match first_slot(slots, wanted) {
            Some(slot) => exists|k: int| #[trigger]
                is_first_wanted(slots, wanted, k) && slots[k] == slot,
            None => forall|k: int| 0 <= k < slots.len() ==> !wanted(#[trigger] slots[k]),
        },
    decreases slots.len(),
{
    if slots.len() == 0 {
    } else if wanted(slots[0]) {
        assert(is_first_wanted(slots, wanted, 0));
    } else {
        let rest = slots.drop_first();
        lemma_first_slot_is_first(rest, wanted);
        match first_slot(rest, wanted) {
            Some(slot) => {
                let k = choose|k: int| #[trigger]
                    is_first_wanted(rest, wanted, k) && rest[k] == slot;
                assert forall|j: int| 0 <= j < k + 1 implies !wanted(#[trigger] slots[j]) by {
                    if j > 0 {
                        assert(slots[j] == rest[j - 1]);
                    }
                }
                assert(slots[k + 1] == rest[k]);
                assert(is_first_wanted(slots, wanted, k + 1));
            },
            None => {
                assert forall|k: int| 0 <= k < slots.len() implies !wanted(#[trigger] slots[k]) by {
                    if k > 0 {
                        assert(slots[k] == rest[k - 1]);
                    }
                }
            },
        }
    }
}

/// A search gives the first wanted slot.
pub proof fn lemma_first_wanted_is_found<T>(
    slots: Seq<Slot<T>>,
    wanted: spec_fn(Slot<T>) -> bool,
    k: int,
)
    requires
        is_first_wanted(slots, wanted, k),
    ensures
        first_slot(slots, wanted) == Some(slots[k]),
    decreases slots.len(),
{
    if k > 0 {
        let rest = slots.drop_first();
        assert(!wanted(slots[0]));
        assert(rest[k - 1] == slots[k]);
        assert forall|j: int| 0 <= j < k - 1 implies !wanted(#[trigger] rest[j]) by {
            assert(rest[j] == slots[j + 1]);
        }
        assert(is_first_wanted(rest, wanted, k - 1));
        lemma_first_wanted_is_found(rest, wanted, k - 1);
    }
}

/// Looking up the number that the toolkit gave to an entry finds that
/// entry's identifier, as long as no entry before it carries the same number.
pub proof fn lemma_event_id_finds_entry<T>(menu: MenuView<T>, k: int)
    requires
        0 <= k < menu.slots().len(),
        forall|j: int|
            0 <= j < k ==> (#[trigger] menu.slots()[j]).entry.event_id
                != menu.slots()[k].entry.event_id,
    ensures
        menu.entry_from_event_id(menu.slots()[k].entry.event_id) == Some(
            menu.slots()[k].entry.id,
        ),
{
    let slots = menu.slots();
    let wanted = has_event::<T>(slots[k].entry.event_id);
    assert(is_first_wanted(slots, wanted, k));
    lemma_first_wanted_is_found(slots, wanted, k);
}

/// Which identifier a run of items gives for an event number does not depend
/// on where in its menu the run starts.
proof fn lemma_event_owner_ignores_base<T>(
    menu: usize,
    items: Seq<ItemView<T>>,
    b1: int,
    b2: int,
    event_id: i32,
)
    ensures
        event_owner(slots_from(menu, items, b1), event_id) == event_owner(
            slots_from(menu, items, b2),
            event_id,
        ),
    decreases items.len(),
{
    if items.len() > 0 {
        let wanted = has_event::<T>(event_id);
        let n = items.len() - 1;
        lemma_event_owner_ignores_base(menu, items.drop_last(), b1, b2, event_id);
        lemma_first_slot_add(
            slots_from(menu, items.drop_last(), b1),
            item_slots(menu, b1 + n, items.last()),
            wanted,
        );
        lemma_first_slot_add(
            slots_from(menu, items.drop_last(), b2),
            item_slots(menu, b2 + n, items.last()),
            wanted,
        );
        if let ItemView::Entry(entry) = items.last() {
            lemma_first_slot_single(Slot { menu, index: b1 + n, entry }, wanted);
            lemma_first_slot_single(Slot { menu, index: b2 + n, entry }, wanted);
        }
    }
}

/// Inserting an entry changes what is found for its own event number only:
/// every other number finds what it found before, and the entry's number,
/// if no entry carried it yet, finds the entry's identifier.
pub proof fn lemma_insert_entry_lookup<T>(
    menu: MenuView<T>,
    i: int,
    entry: EntryView<T>,
    event_id: i32,
)
    requires
        0 <= i <= menu.items.len(),
    ensures
        event_id != entry.event_id ==> menu.with_item(
            i,
            ItemView::Entry(entry),
        ).entry_from_event_id(event_id) == menu.entry_from_event_id(event_id),
        menu.entry_from_event_id(entry.event_id) is None ==> menu.with_item(
            i,
            ItemView::Entry(entry),
        ).entry_from_event_id(entry.event_id) == Some(entry.id),
{
    let h = menu.handle;
    let item = ItemView::Entry(entry);
    let after = menu.with_item(i, item);
    let head = menu.items.take(i);
    let tail = menu.items.skip(i);
    let one = seq![item];
    let slot = Slot { menu: h, index: i, entry };
    assert(menu.items =~= head + tail);
    assert(after.items =~= head + (one + tail));
    assert(one.drop_last() =~= Seq::<ItemView<T>>::empty());
    assert(one.last() == item);
    assert(slots_from(h, Seq::<ItemView<T>>::empty(), i).len() == 0);
    assert(item_slots(h, i, item) =~= seq![slot]);
    assert(slots_from(h, one, i) =~= seq![slot]);
    lemma_slots_from_add(h, head, tail, 0);
    lemma_slots_from_add(h, head, one + tail, 0);
    lemma_slots_from_add(h, one, tail, i);
    let first = slots_from(h, head, 0);
    let old_rest = slots_from(h, tail, i);
    let new_rest = slots_from(h, tail, i + 1);
    assert forall|number: i32|
        number == event_id || number == entry.event_id implies event_owner(
        after.slots(),
        number,
    ) == (match event_owner(first, number) {
        Some(id) => Some(id),
        None => if number == entry.event_id {
            Some(entry.id)
        } else {
            event_owner(old_rest, number)
        },
    }) && event_owner(menu.slots(), number) == (match event_owner(first, number) {
        Some(id) => Some(id),
        None => event_owner(old_rest, number),
    }) by {
        let wanted = has_event::<T>(number);
        lemma_first_slot_add(first, old_rest, wanted);
        lemma_first_slot_add(first, seq![slot] + new_rest, wanted);
        lemma_first_slot_add(seq![slot], new_rest, wanted);
        lemma_first_slot_single(slot, wanted);
        lemma_event_owner_ignores_base(h, tail, i, i + 1, number);
    }
}

/// One insertion of an entry into a menu: the position, and the entry with
/// the number that the toolkit gave it.
pub struct Insertion<T> {
    pub index: int,
    pub entry: EntryView<T>,
}

/// The menu after the insertions, carried out in order.
pub open spec fn after_insertions<T>(menu: MenuView<T>, steps: Seq<Insertion<T>>) -> MenuView<T>
    decreases steps.len(),
{
    if steps.len() == 0 {
        menu
    } else {
        after_insertions(menu, steps.drop_last()).with_item(
            steps.last().index,
            ItemView::Entry(steps.last().entry),
        )
    }
}

/// Every insertion names a position that the menu has when its turn comes.
pub open spec fn insertions_fit<T>(menu: MenuView<T>, steps: Seq<Insertion<T>>) -> bool {
    forall|k: int|
        0 <= k < steps.len() ==> 0 <= (#[trigger] steps[k]).index <= menu.items.len() + k
}

/// The toolkit gave every inserted entry a number of its own: one that no
/// entry of the menu carried, and that no other insertion got.
pub open spec fn numbers_are_new<T>(menu: MenuView<T>, steps: Seq<Insertion<T>>) -> bool {
    &&& forall|k: int|
        0 <= k < steps.len() ==> menu.entry_from_event_id(
            (#[trigger] steps[k]).entry.event_id,
        ) is None
    &&& forall|j: int, k: int|
        0 <= j < k < steps.len() ==> (#[trigger] steps[j]).entry.event_id
            != (#[trigger] steps[k]).entry.event_id
}

/// After the insertions the menu has grown by their number, every inserted
/// entry is found by its number, and the other numbers find what they found.
proof fn lemma_after_insertions<T>(menu: MenuView<T>, steps: Seq<Insertion<T>>)
    requires
        insertions_fit(menu, steps),
        numbers_are_new(menu, steps),
    ensures
        after_insertions(menu, steps).items.len() == menu.items.len() + steps.len(),
        forall|k: int|
            0 <= k < steps.len() ==> after_insertions(menu, steps).entry_from_event_id(
                (#[trigger] steps[k]).entry.event_id,
            ) == Some(steps[k].entry.id),
        forall|number: i32|
            (forall|k: int| 0 <= k < steps.len() ==> (#[trigger] steps[k]).entry.event_id != number)
                ==> #[trigger] after_insertions(menu, steps).entry_from_event_id(number)
                == menu.entry_from_event_id(number),
    decreases steps.len(),
{
    if steps.len() > 0 {
        let earlier = steps.drop_last();
        let last = steps.last();
        let before = after_insertions(menu, earlier);
        let after = after_insertions(menu, steps);
        assert forall|k: int| 0 <= k < earlier.len() implies 0 <= (#[trigger] earlier[k]).index
            <= menu.items.len() + k by {
            assert(earlier[k] == steps[k]);
        }
        assert(numbers_are_new(menu, earlier)) by {
            assert forall|k: int| 0 <= k < earlier.len() implies menu.entry_from_event_id(
                (#[trigger] earlier[k]).entry.event_id,
            ) is None by {
                assert(earlier[k] == steps[k]);
            }
            assert forall|j: int, k: int| 0 <= j < k < earlier.len() implies (
            #[trigger] earlier[j]).entry.event_id != (#[trigger] earlier[k]).entry.event_id by {
                assert(earlier[j] == steps[j]);
                assert(earlier[k] == steps[k]);
            }
        }
        lemma_after_insertions(menu, earlier);
        assert(last == steps[steps.len() - 1]);
        assert forall|k: int| 0 <= k < earlier.len() implies (#[trigger] earlier[k]).entry.event_id
            != last.entry.event_id by {
            assert(earlier[k] == steps[k]);
        }
        assert(before.entry_from_event_id(last.entry.event_id) == menu.entry_from_event_id(
            last.entry.event_id,
        ));
        lemma_insert_entry_lookup(before, last.index, last.entry, last.entry.event_id);
        assert forall|k: int| 0 <= k < steps.len() implies after.entry_from_event_id(
            (#[trigger] steps[k]).entry.event_id,
        ) == Some(steps[k].entry.id) by {
            if k < earlier.len() {
                assert(earlier[k] == steps[k]);
                lemma_insert_entry_lookup(
                    before,
                    last.index,
                    last.entry,
                    steps[k].entry.event_id,
                );
            }
        }
        assert forall|number: i32|
            (forall|k: int|
                0 <= k < steps.len() ==> (#[trigger] steps[k]).entry.event_id
                    != number) implies #[trigger] after.entry_from_event_id(number)
            == menu.entry_from_event_id(number) by {
            assert forall|k: int| 0 <= k < earlier.len() implies (
            #[trigger] earlier[k]).entry.event_id != number by {
                assert(earlier[k] == steps[k]);
            }
            lemma_insert_entry_lookup(before, last.index, last.entry, number);
        }
    }
}

/// Insert any number of entries into a menu, at any positions, each with a
/// number of its own from the toolkit: looking up the number of any of them
/// gives the identifier that the entry was made with.
pub proof fn lemma_inserted_entries_are_found<T>(
    menu: MenuView<T>,
    steps: Seq<Insertion<T>>,
    k: int,
)
    requires
        insertions_fit(menu, steps),
        numbers_are_new(menu, steps),
        0 <= k < steps.len(),
    ensures
        after_insertions(menu, steps).entry_from_event_id(steps[k].entry.event_id) == Some(
            steps[k].entry.id,
        ),
{
    lemma_after_insertions(menu, steps);
}

/// Enabling or disabling by identifier names an entry of the menu itself
/// where that entry has the identifier and no entry at or below the items
/// before it has: the call names the menu and the entry's position, and no
/// other item.
pub proof fn lemma_enable_finds_entry<T: PartialEq>(
    menu: MenuView<T>,
    j: int,
    id: T,
    enable: bool,
)
    requires
        0 <= j < menu.items.len(),
        menu.items[j] matches ItemView::Entry(entry) && entry.id.eq_spec(&id),
        first_slot(slots_from(menu.handle, menu.items.take(j), 0), has_id(id)) is None,
    ensures
        menu.enable_call_by_id(id, enable) == Some(
            NativeCallView::EnableMenuItem { menu: menu.handle, index: j, enable },
        ),
{
    let wanted = has_id(id);
    let entry = menu.items[j]->Entry_0;
    lemma_search_step(menu.handle, menu.items, j, wanted);
    lemma_first_slot_single(Slot { menu: menu.handle, index: j, entry }, wanted);
    lemma_search_prefix(menu.handle, menu.items, j + 1, wanted);
}

/// Enabling or disabling by identifier goes into a submenu where the entry
/// is found there and no entry at or below the items before the submenu has
/// the identifier: the call is the one that the submenu gives, so it names
/// the menu that owns the entry, at whatever depth, and the entry's position
/// in that menu.
pub proof fn lemma_enable_reaches_submenu<T: PartialEq>(
    menu: MenuView<T>,
    k: int,
    id: T,
    enable: bool,
)
    requires
        0 <= k < menu.items.len(),
        menu.items[k] matches ItemView::Submenu(sub) && sub.enable_call_by_id(id, enable) is Some,
        first_slot(slots_from(menu.handle, menu.items.take(k), 0), has_id(id)) is None,
    ensures
        menu.enable_call_by_id(id, enable) == menu.items[k]->Submenu_0.enable_call_by_id(
            id,
            enable,
        ),
{
    let wanted = has_id(id);
    lemma_search_step(menu.handle, menu.items, k, wanted);
    lemma_search_prefix(menu.handle, menu.items, k + 1, wanted);
}

/// The entry at position `j` of the submenu at position `k` of a menu is
/// the one that enabling or disabling by its identifier names, where no
/// entry before it, depth first, has the identifier: the call names the
/// submenu and position `j`, and so touches none of the entry's siblings.
pub proof fn lemma_enable_finds_nested_entry<T: PartialEq>(
    menu: MenuView<T>,
    k: int,
    j: int,
    id: T,
    enable: bool,
)
    requires
        0 <= k < menu.items.len(),
        menu.items[k] is Submenu,
        0 <= j < menu.items[k]->Submenu_0.items.len(),
        menu.items[k]->Submenu_0.items[j] matches ItemView::Entry(entry) && entry.id.eq_spec(&id),
        first_slot(slots_from(menu.handle, menu.items.take(k), 0), has_id(id)) is None,
        first_slot(
            slots_from(
                menu.items[k]->Submenu_0.handle,
                menu.items[k]->Submenu_0.items.take(j),
                0,
            ),
            has_id(id),
        ) is None,
    ensures
        menu.enable_call_by_id(id, enable) == Some(
            NativeCallView::EnableMenuItem {
                menu: menu.items[k]->Submenu_0.handle,
                index: j,
                enable,
            },
        ),
{
    lemma_enable_finds_entry(menu.items[k]->Submenu_0, j, id, enable);
    lemma_enable_reaches_submenu(menu, k, id, enable);
}

} // verus!
