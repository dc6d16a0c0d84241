//! Menus: an ordered tree of entries, submenus and separators that the
//! toolkit mirrors item for item.
//!
//! A menu is made for a native menu that exists already, and keeps its
//! handle. Every operation that changes the tree gives the calls that do the
//! same to the native side. Inserting takes two steps, because the toolkit
//! answers the insertion of an entry with the number by which it will name
//! the entry: `insert_call` gives the call, and `insert` puts the item into
//! the tree together with the answer.

use crate::menu_view::{
    delete_calls, deletions_of, first_slot, has_event, has_id, item_deletions, item_slots,
    lemma_delete_calls_add, lemma_first_slot_single, lemma_item_slots_within,
    lemma_search_prefix, lemma_search_step, names_slot, slots_from,
    EntryView, ItemView, MenuView, Slot,
};
use crate::mirror::{
    lemma_insertion_on_native_menu, lemma_removal_on_native_menu, menu_after_call,
    menu_after_calls, native_items,
};
use crate::native::{
    calls_view, clone_text, optional_call_view, text_view, NativeCall, NativeCallView,
};
use vstd::prelude::*;
use vstd::std_specs::cmp::PartialEqSpec;

verus! {

/// A selectable line of a menu.
#[derive(Debug)]
pub struct MenuEntry<T: Copy + std::fmt::Debug> {
    id: T,
    event_id: i32,
    name: String,
    help: Option<String>,
}

/// One item of a menu.
#[derive(Debug)]
pub enum MenuItem<T: Copy + std::fmt::Debug> {
    Submenu(Menu<T>),
    Entry(MenuEntry<T>),
    Separator,
}

/// A menu and the items it owns, in the order in which they are shown.
#[derive(Debug)]
pub struct Menu<T: Copy + std::fmt::Debug> {
    ptr: usize,
    /// Not needed for a top level popup menu.
    name: Option<String>,
    items: Vec<MenuItem<T>>,
    help: Option<String>,
}

impl<T: Copy + std::fmt::Debug> View for MenuEntry<T> {
    type V = EntryView<T>;

    closed spec fn view(&self) -> EntryView<T> {
        EntryView {
            id: self.id,
            event_id: self.event_id,
            name: self.name@,
            help: text_view(self.help),
        }
    }
}

impl<T: Copy + std::fmt::Debug> MenuItem<T> {
    /// What the item holds.
    pub open spec fn model(self) -> ItemView<T>
        decreases self,
    {
        match self {
            MenuItem::Submenu(menu) => ItemView::Submenu(menu.model()),
            MenuItem::Entry(entry) => ItemView::Entry(entry@),
            MenuItem::Separator => ItemView::Separator,
        }
    }
}

impl<T: Copy + std::fmt::Debug> Menu<T> {
    /// What the menu holds.
    pub closed spec fn model(self) -> MenuView<T>
        decreases self,
    {
        MenuView {
            handle: self.ptr,
            name: text_view(self.name),
            items: Seq::new(
                self.items@.len(),
                |k: int|
                    if 0 <= k < self.items@.len() {
                        self.items@[k].model()
                    } else {
                        ItemView::Separator
                    },
            ),
            help: text_view(self.help),
        }
    }
}

impl<T: Copy + std::fmt::Debug> View for MenuItem<T> {
    type V = ItemView<T>;

    open spec fn view(&self) -> ItemView<T> {
        self.model()
    }
}

impl<T: Copy + std::fmt::Debug> View for Menu<T> {
    type V = MenuView<T>;

    open spec fn view(&self) -> MenuView<T> {
        self.model()
    }
}

impl<T: Copy + std::fmt::Debug> MenuEntry<T> {
    /// An entry with the given identifier and name, without a help text. The
    /// toolkit has not named it yet.
    pub fn new(id: T, name: String) -> (entry: Self)
        ensures
            entry@ == (EntryView { id, event_id: 0, name: name@, help: None }),
    {
        Self { id, event_id: 0, name, help: None }
    }

    /// The identifier that the application chose.
    pub fn id(&self) -> (id: T)
        ensures
            id == self@.id,
    {
        self.id
    }

    /// The number by which the toolkit names the entry in menu events.
    pub fn event_id(&self) -> (event_id: i32)
        ensures
            event_id == self@.event_id,
    {
        self.event_id
    }

    /// The name under which the entry is shown.
    pub fn name(&self) -> (name: &String)
        ensures
            name@ == self@.name,
    {
        &self.name
    }

    /// The entry with the given help text.
    pub fn help(self, help: String) -> (entry: Self)
        ensures
            entry@ == (EntryView { help: Some(help@), ..self@ }),
    {
        let mut entry = self;
        entry.help = Some(help);
        entry
    }
}

impl<T: Copy + std::fmt::Debug> Menu<T> {
    /// An empty menu for the native menu with the given handle. Only a popup
    /// menu goes without a name.
    pub fn new(ptr: usize, name: Option<String>) -> (menu: Self)
        ensures
            menu@ == (MenuView::<T> {
                handle: ptr,
                name: text_view(name),
                items: Seq::empty(),
                help: None,
            }),
    {
        let menu = Self { name, ptr, items: Vec::new(), help: None };
        assert(menu@.items =~= Seq::empty());
        menu
    }

    /// The handle of the native menu.
    pub fn handle(&self) -> (ptr: usize)
        ensures
            ptr == self@.handle,
    {
        self.ptr
    }

    /// The name of the menu, if it has one.
    pub fn name(&self) -> (name: &Option<String>)
        ensures
            text_view(*name) == self@.name,
    {
        &self.name
    }

    /// The item at position `i`.
    pub fn item(&self, i: usize) -> (item: &MenuItem<T>)
        requires
            i < self@.items.len(),
        ensures
            item@ == self@.items[i as int],
    {
        &self.items[i]
    }

    /// The number of items.
    pub fn len(&self) -> (len: usize)
        ensures
            len == self@.items.len(),
    {
        self.items.len()
    }

    /// The menu with the given help text.
    pub fn help(self, help: String) -> (menu: Self)
        ensures
            menu@ == (MenuView { help: Some(help@), ..self@ }),
    {
        let mut menu = self;
        menu.help = Some(help);
        assert(menu@.items =~= self@.items);
        menu
    }

    /// The call that inserts `entry` at position `i` of the native menu. It
    /// is to be carried out before `insert`, which takes the toolkit's answer.
    pub fn insert_call(&self, i: usize, entry: &MenuItem<T>) -> (call: NativeCall)
        requires
            i <= self@.items.len(),
            entry@ matches ItemView::Submenu(sub) ==> sub.name is Some,
        ensures
            call@ == self@.insert_call(i as int, entry@),
            menu_after_call(self@.handle, native_items(self@), call@) == Some(
                native_items(self@.with_item(i as int, entry@)),
            ),
    {
        proof {
            lemma_insertion_on_native_menu(self@, i as int, entry@);
        }
        match entry {
            MenuItem::Submenu(sub) => {
                NativeCall::InsertSubmenu {
                    menu: self.ptr,
                    index: i,
                    submenu: sub.ptr,
                    name: sub.name.as_ref().unwrap().clone(),
                    help: clone_text(&sub.help),
                }
            },
            MenuItem::Entry(entry) => NativeCall::InsertToMenu {
                menu: self.ptr,
                index: i,
                name: entry.name.clone(),
                help: clone_text(&entry.help),
            },
            MenuItem::Separator => NativeCall::InsertSeparatorToMenu { menu: self.ptr, index: i },
        }
    }

    /// Inserts `entry` at position `i`. `event_id` is what the toolkit
    /// answered to the call of `insert_call`; an entry records it.
    pub fn insert(&mut self, i: usize, entry: MenuItem<T>, event_id: i32)
        requires
            i <= old(self)@.items.len(),
            entry@ matches ItemView::Submenu(sub) ==> sub.name is Some,
        ensures
            final(self)@ == old(self)@.with_item(i as int, entry@.with_event_id(event_id)),
            menu_after_call(
                old(self)@.handle,
                native_items(old(self)@),
                old(self)@.insert_call(i as int, entry@),
            ) == Some(native_items(final(self)@)),
            old(self)@.wf() && entry@.wf() ==> final(self)@.wf(),
    {
        proof {
            lemma_insertion_on_native_menu(old(self)@, i as int, entry@);
            assert(native_items(old(self)@.with_item(i as int, entry@)) =~= native_items(
                old(self)@.with_item(i as int, entry@.with_event_id(event_id)),
            ));
        }
        let item = match entry {
            MenuItem::Entry(entry) => {
                let mut entry = entry;
                entry.event_id = event_id;
                MenuItem::Entry(entry)
            },
            MenuItem::Submenu(sub) => MenuItem::Submenu(sub),
            MenuItem::Separator => MenuItem::Separator,
        };
        self.items.insert(i, item);
        assert(self@.items =~= old(self)@.items.insert(
            i as int,
            entry@.with_event_id(event_id),
        ));
    }

    /// The menu with a separator after its items.
    pub fn push_separator(self) -> (menu: Self)
        ensures
            menu@ == self@.with_item(self@.items.len() as int, ItemView::Separator),
            self@.wf() ==> menu@.wf(),
    {
        let mut menu = self;
        let end = menu.items.len();
        menu.insert(end, MenuItem::Separator, 0);
        menu
    }

    /// The menu with `entry` after its items, named `event_id` by the
    /// toolkit.
    pub fn push_entry(self, entry: MenuEntry<T>, event_id: i32) -> (menu: Self)
        ensures
            menu@ == self@.with_item(
                self@.items.len() as int,
                ItemView::Entry(EntryView { event_id, ..entry@ }),
            ),
            self@.wf() ==> menu@.wf(),
    {
        let mut menu = self;
        let end = menu.items.len();
        menu.insert(end, MenuItem::Entry(entry), event_id);
        menu
    }

    /// The menu with `submenu` after its items.
    pub fn push_submenu(self, submenu: Menu<T>) -> (menu: Self)
        requires
            submenu@.name is Some,
        ensures
            menu@ == self@.with_item(self@.items.len() as int, ItemView::Submenu(submenu@)),
            self@.wf() && submenu@.wf() ==> menu@.wf(),
    {
        let mut menu = self;
        let end = menu.items.len();
        menu.insert(end, MenuItem::Submenu(submenu), 0);
        menu
    }

    /// Removes the item at position `i`. The calls remove it from the native
    /// menu and then destroy the menus that went with it, leaves first.
    pub fn remove(&mut self, i: usize) -> (calls: Vec<NativeCall>)
        requires
            i < old(self)@.items.len(),
        ensures
            final(self)@ == old(self)@.without_item(i as int),
            forall|k: int| 0 <= k < i ==> final(self)@.items[k] == old(self)@.items[k],
            forall|k: int|
                i < k < old(self)@.items.len() ==> final(self)@.items[k - 1] == old(self)@.items[k],
            calls_view(calls@) == old(self)@.remove_calls(i as int),
            menu_after_calls(old(self)@.handle, native_items(old(self)@), calls_view(calls@))
                == Some(native_items(final(self)@)),
            old(self)@.wf() ==> final(self)@.wf(),
    {
        proof {
            lemma_removal_on_native_menu(old(self)@, i as int);
        }
        let mut calls = Vec::new();
        calls.push(NativeCall::RemoveFromMenu { menu: self.ptr, index: i });
        let removed = self.items.remove(i);
        assert(self@.items =~= old(self)@.items.remove(i as int));
        assert(calls_view(calls@) =~= seq![
            NativeCallView::RemoveFromMenu { menu: old(self)@.handle, index: i as int },
        ]);
        if let MenuItem::Submenu(sub) = &removed {
            sub.delete_into(&mut calls);
        } else {
            assert(delete_calls(item_deletions(removed@)) =~= Seq::empty());
        }
        calls
    }

    /// Adds to `calls` the calls that destroy the menus of the tree, every
    /// menu after the menus below it.
    pub(crate) fn delete_into(&self, calls: &mut Vec<NativeCall>)
        ensures
            calls_view(final(calls)@) == calls_view(old(calls)@) + delete_calls(
                self@.deletions(),
            ),
        decreases self,
    {
        let mut i: usize = 0;
        while i < self.items.len()
            invariant
                i <= self.items.len(),
                calls_view(calls@) == calls_view(old(calls)@) + delete_calls(
                    deletions_of(self@.items.take(i as int)),
                ),
            decreases self.items.len() - i,
        {
            proof {
                let upto = self@.items.take(i + 1);
                assert(upto.drop_last() =~= self@.items.take(i as int));
                assert(upto.last() == self@.items[i as int]);
                lemma_delete_calls_add(
                    deletions_of(self@.items.take(i as int)),
                    item_deletions(self@.items[i as int]),
                );
            }
            if let MenuItem::Submenu(sub) = &self.items[i] {
                sub.delete_into(calls);
            }
            i += 1;
        }
        let ghost below = calls@;
        calls.push(NativeCall::DeleteMenu { menu: self.ptr });
        proof {
            let own = seq![NativeCallView::DeleteMenu { menu: self@.handle }];
            assert(self@.items.take(i as int) =~= self@.items);
            assert(calls_view(calls@) =~= calls_view(below) + own);
            assert(delete_calls(seq![self@.handle]) =~= own);
            lemma_delete_calls_add(deletions_of(self@.items), seq![self@.handle]);
            assert(deletions_of(self@.items).push(self@.handle) =~= deletions_of(self@.items)
                + seq![self@.handle]);
            assert((calls_view(old(calls)@) + delete_calls(deletions_of(self@.items))) + own
                =~= calls_view(old(calls)@) + (delete_calls(deletions_of(self@.items)) + own));
        }
    }

    /// Gives the menu up. The calls destroy its native counterpart and those
    /// of the menus below it, every menu after the menus below it.
    pub fn destroy(self) -> (calls: Vec<NativeCall>)
        ensures
            calls_view(calls@) == delete_calls(self@.deletions()),
    {
        let mut calls = Vec::new();
        self.delete_into(&mut calls);
        calls
    }

    /// The call that enables the item at position `i`.
    pub fn enable_item(&self, i: usize) -> (call: NativeCall)
        requires
            i < self@.items.len(),
        ensures
            call == (NativeCall::EnableMenuItem { menu: self@.handle, index: i, enable: true }),
            menu_after_call(self@.handle, native_items(self@), call@) == Some(native_items(self@)),
    {
        NativeCall::EnableMenuItem { menu: self.ptr, index: i, enable: true }
    }

    /// The call that disables the item at position `i`.
    pub fn disable_item(&self, i: usize) -> (call: NativeCall)
        requires
            i < self@.items.len(),
        ensures
            call == (NativeCall::EnableMenuItem { menu: self@.handle, index: i, enable: false }),
            menu_after_call(self@.handle, native_items(self@), call@) == Some(native_items(self@)),
    {
        NativeCall::EnableMenuItem { menu: self.ptr, index: i, enable: false }
    }

    /// The call that shows the menu as the transient status menu.
    pub fn popup(&self) -> (call: NativeCall)
        ensures
            call == (NativeCall::SetStatusMenu { menu: self@.handle }),
    {
        NativeCall::SetStatusMenu { menu: self.ptr }
    }

    /// The identifier of the entry that the toolkit names by `event_id`: of
    /// the first such entry, depth first, where several carry the number.
    pub fn get_entry_from_event_id(&self, event_id: i32) -> (id: Option<T>)
        ensures
            id == self@.entry_from_event_id(event_id),
        decreases self,
    {
        let ghost wanted = has_event::<T>(event_id);
        let mut i: usize = 0;
        while i < self.items.len()
            invariant
                i <= self.items.len(),
                wanted == has_event::<T>(event_id),
                first_slot(slots_from(self@.handle, self@.items.take(i as int), 0), wanted) is None,
            decreases self.items.len() - i,
        {
            proof {
                lemma_search_step(self@.handle, self@.items, i as int, wanted);
            }
            match &self.items[i] {
                MenuItem::Entry(entry) => {
                    proof {
                        lemma_first_slot_single(
                            Slot { menu: self@.handle, index: i as int, entry: entry@ },
                            wanted,
                        );
                    }
                    if entry.event_id == event_id {
                        proof {
                            lemma_search_prefix(self@.handle, self@.items, i + 1, wanted);
                        }
                        return Some(entry.id);
                    }
                },
                MenuItem::Submenu(sub) => {
                    let found = sub.get_entry_from_event_id(event_id);
                    assert(item_slots(self@.handle, i as int, self@.items[i as int])
                        == sub@.slots());
                    if found.is_some() {
                        proof {
                            lemma_search_prefix(self@.handle, self@.items, i + 1, wanted);
                        }
                        return found;
                    }
                },
                MenuItem::Separator => {
                    assert(item_slots(self@.handle, i as int, self@.items[i as int]).len() == 0);
                },
            }
            i += 1;
        }
        proof {
            assert(self@.items.take(i as int) =~= self@.items);
        }
        None
    }
}

impl<T: PartialEq + Copy + std::fmt::Debug> Menu<T> {
    /// The owning menu and the position of the first entry, depth first,
    /// whose identifier equals `id`. Whatever the comparison of identifiers
    /// answers, a place that is given is the place of an entry.
    fn find_by_id(&self, id: T) -> (place: Option<(usize, usize)>)
        ensures
            T::obeys_eq_spec() ==> (match first_slot(self@.slots(), has_id(id)) {
                Some(slot) => place == Some((slot.menu, slot.index as usize)) && 0 <= slot.index
                    <= usize::MAX,
                None => place is None,
            }),
            place matches Some((menu, index)) ==> names_slot(self@.slots(), menu, index as int),
        decreases self,
    {
        let ghost wanted = has_id::<T>(id);
        let mut i: usize = 0;
        while i < self.items.len()
            invariant
                i <= self.items.len(),
                wanted == has_id::<T>(id),
                T::obeys_eq_spec() ==> first_slot(
                    slots_from(self@.handle, self@.items.take(i as int), 0),
                    wanted,
                ) is None,
            decreases self.items.len() - i,
        {
            proof {
                lemma_search_step(self@.handle, self@.items, i as int, wanted);
            }
            match &self.items[i] {
                MenuItem::Entry(entry) => {
                    proof {
                        lemma_first_slot_single(
                            Slot { menu: self@.handle, index: i as int, entry: entry@ },
                            wanted,
                        );
                    }
                    if entry.id == id {
                        proof {
                            if T::obeys_eq_spec() {
                                lemma_search_prefix(self@.handle, self@.items, i + 1, wanted);
                            }
                            lemma_item_slots_within(self@.handle, self@.items, i as int, 0);
                        }
                        return Some((self.ptr, i));
                    }
                },
                MenuItem::Submenu(sub) => {
                    let found = sub.find_by_id(id);
                    assert(item_slots(self@.handle, i as int, self@.items[i as int])
                        == sub@.slots());
                    if found.is_some() {
                        proof {
                            if T::obeys_eq_spec() {
                                lemma_search_prefix(self@.handle, self@.items, i + 1, wanted);
                            }
                            let (menu, index) = found->0;
                            let k = choose|k: int|
                                0 <= k < sub@.slots().len() && (#[trigger] sub@.slots()[k]).menu
                                    == menu && sub@.slots()[k].index == index;
                            lemma_item_slots_within(self@.handle, self@.items, i as int, k);
                        }
                        return found;
                    }
                },
                MenuItem::Separator => {
                    assert(item_slots(self@.handle, i as int, self@.items[i as int]).len() == 0);
                },
            }
            i += 1;
        }
        proof {
            assert(self@.items.take(i as int) =~= self@.items);
        }
        None
    }

    /// The call that enables the first entry, depth first, whose identifier
    /// equals `id`; nothing where no entry has the identifier. Identifiers
    /// are compared with `==`, and which entry is named is stated for the
    /// types whose `==` is known; for every type a call that is given enables
    /// an entry of the tree.
    pub fn enable_item_by_id(&self, id: T) -> (call: Option<NativeCall>)
        ensures
            T::obeys_eq_spec() ==> optional_call_view(call) == self@.enable_call_by_id(id, true),
            match call {
                Some(NativeCall::EnableMenuItem { menu, index, enable }) => enable && names_slot(
                    self@.slots(),
                    menu,
                    index as int,
                ),
                Some(_) => false,
                None => true,
            },
    {
        match self.find_by_id(id) {
            Some((menu, index)) => Some(NativeCall::EnableMenuItem { menu, index, enable: true }),
            None => None,
        }
    }

    /// The call that disables the first entry, depth first, whose identifier
    /// equals `id`; nothing where no entry has the identifier. Identifiers
    /// are compared with `==`, and which entry is named is stated for the
    /// types whose `==` is known; for every type a call that is given
    /// disables an entry of the tree.
    pub fn disable_item_by_id(&self, id: T) -> (call: Option<NativeCall>)
        ensures
            T::obeys_eq_spec() ==> optional_call_view(call) == self@.enable_call_by_id(id, false),
            match call {
                Some(NativeCall::EnableMenuItem { menu, index, enable }) => !enable && names_slot(
                    self@.slots(),
                    menu,
                    index as int,
                ),
                Some(_) => false,
                None => true,
            },
    {
        match self.find_by_id(id) {
            Some((menu, index)) => Some(NativeCall::EnableMenuItem { menu, index, enable: false }),
            None => None,
        }
    }
}

} // verus!
