//! The menu bar: an ordered row of menus that the toolkit mirrors menu for
//! menu.

use crate::menu::Menu;
use crate::menu_view::{
    delete_calls, event_owner, first_slot, has_event, lemma_first_slot_add, MenuView, Slot,
};
use crate::mirror::{
    bar_after_call, bar_after_calls, lemma_bar_after_calls_add, lemma_deleting_keeps_bar,
};
use crate::native::{calls_view, NativeCall, NativeCallView};
use vstd::prelude::*;

verus! {

/// The menu bar of the application. There should only ever be one.
#[derive(Debug)]
pub struct MenuBar<T: Copy + std::fmt::Debug> {
    ptr: usize,
    menus: Vec<Menu<T>>,
}

/// What a menu bar holds: the handle of its native counterpart and its menus
/// in order.
pub struct BarView<T> {
    pub handle: usize,
    pub menus: Seq<MenuView<T>>,
}

/// The entries of the given menus with their places, menu after menu.
pub open spec fn bar_slots<T>(menus: Seq<MenuView<T>>) -> Seq<Slot<T>>
    decreases menus.len(),
{
    if menus.len() == 0 {
        Seq::empty()
    } else {
        bar_slots(menus.drop_last()) + menus.last().slots()
    }
}

/// The title under which a menu stands in a menu bar: its name, or
/// "Default" for a menu without one.
pub open spec fn bar_title<T>(menu: MenuView<T>) -> Seq<char> {
    match menu.name {
        Some(name) => name,
        None => "Default"@,
    }
}

/// The calls that take the menu at position `i` out of a bar: it is removed
/// from the native bar, then it and the menus below it are destroyed, leaves
/// first.
pub open spec fn removal_calls<T>(bar: usize, menus: Seq<MenuView<T>>, i: int) -> Seq<
    NativeCallView,
> {
    seq![NativeCallView::RemoveFromMenuBar { bar, index: i }] + delete_calls(menus[i].deletions())
}

/// The calls that empty a bar: its menus are taken out from the last to the
/// first, so that no removal shifts a menu that is still to go.
pub open spec fn clear_calls<T>(bar: usize, menus: Seq<MenuView<T>>) -> Seq<NativeCallView>
    decreases menus.len(),
{
    if menus.len() == 0 {
        Seq::empty()
    } else {
        removal_calls(bar, menus, menus.len() - 1) + clear_calls(bar, menus.drop_last())
    }
}

impl<T> BarView<T> {
    /// The handles of the menus, in order: what the native bar holds while
    /// it mirrors this one.
    pub open spec fn handles(self) -> Seq<usize> {
        Seq::new(self.menus.len(), |k: int| self.menus[k].handle)
    }

    /// Every entry of every menu with its place.
    pub open spec fn slots(self) -> Seq<Slot<T>> {
        bar_slots(self.menus)
    }

    /// The identifier of the first entry, menu after menu and depth first,
    /// that the toolkit names by `event_id`.
    pub open spec fn entry_from_event_id(self, event_id: i32) -> Option<T> {
        event_owner(self.slots(), event_id)
    }

    /// The bar with `menu` at position `i`.
    pub open spec fn with_menu(self, i: int, menu: MenuView<T>) -> BarView<T> {
        BarView { menus: self.menus.insert(i, menu), ..self }
    }

    /// The bar without the menu at position `i`.
    pub open spec fn without_menu(self, i: int) -> BarView<T> {
        BarView { menus: self.menus.remove(i), ..self }
    }

    /// The call that puts `menu` at position `i` of the native bar.
    pub open spec fn insert_call(self, i: int, menu: MenuView<T>) -> NativeCallView {
        NativeCallView::InsertToMenuBar {
            bar: self.handle,
            menu: menu.handle,
            index: i,
            name: bar_title(menu),
        }
    }
}

impl<T: Copy + std::fmt::Debug> View for MenuBar<T> {
    type V = BarView<T>;

    closed spec fn view(&self) -> BarView<T> {
        BarView {
            handle: self.ptr,
            menus: Seq::new(self.menus@.len(), |k: int| self.menus@[k]@),
        }
    }
}

/// The slots of two rows of menus in a row are the slots of the first row
/// followed by those of the second.
pub proof fn lemma_bar_slots_add<T>(a: Seq<MenuView<T>>, b: Seq<MenuView<T>>)
    ensures
        bar_slots(a + b) == bar_slots(a) + bar_slots(b),
    decreases b.len(),
{
    if b.len() == 0 {
        assert(a + b =~= a);
        assert(bar_slots(a) + bar_slots(b) =~= bar_slots(a));
    } else {
        assert((a + b).drop_last() =~= a + b.drop_last());
        assert((a + b).last() == b.last());
        lemma_bar_slots_add(a, b.drop_last());
        assert((bar_slots(a) + bar_slots(b.drop_last())) + b.last().slots() =~= bar_slots(a) + (
        bar_slots(b.drop_last()) + b.last().slots()));
    }
}

/// Taking the menu at position `i` out of a bar takes its handle out of the
/// native bar.
pub proof fn lemma_removal_on_native_bar<T>(bar: BarView<T>, i: int)
    requires
        0 <= i < bar.menus.len(),
    ensures
        bar_after_calls(bar.handle, bar.handles(), removal_calls(bar.handle, bar.menus, i))
            == Some(bar.without_menu(i).handles()),
{
    let first = seq![NativeCallView::RemoveFromMenuBar { bar: bar.handle, index: i }];
    let rest = delete_calls(bar.menus[i].deletions());
    let left = bar.handles().remove(i);
    assert(left =~= bar.without_menu(i).handles());
    assert(first.drop_first() =~= Seq::<NativeCallView>::empty());
    assert(bar_after_calls(bar.handle, left, first.drop_first()) == Some(left));
    assert(bar_after_calls(bar.handle, bar.handles(), first) == Some(left));
    lemma_bar_after_calls_add(bar.handle, bar.handles(), first, rest);
    lemma_deleting_keeps_bar(bar.handle, left, bar.menus[i].deletions());
}

/// Emptying a bar leaves the native bar without a menu: every removal names
/// a position that the native bar still has, for a bar of no menu, of one
/// and of many, whatever submenus they hold.
pub proof fn lemma_clear_empties_native_bar<T>(bar: BarView<T>)
    ensures
        bar_after_calls(bar.handle, bar.handles(), clear_calls(bar.handle, bar.menus)) == Some(
            Seq::<usize>::empty(),
        ),
    decreases bar.menus.len(),
{
    if bar.menus.len() == 0 {
        assert(bar.handles() =~= Seq::<usize>::empty());
    } else {
        let last = bar.menus.len() - 1;
        let rest = bar.without_menu(last);
        assert(rest.menus =~= bar.menus.drop_last());
        lemma_removal_on_native_bar(bar, last);
        lemma_clear_empties_native_bar(rest);
        lemma_bar_after_calls_add(
            bar.handle,
            bar.handles(),
            removal_calls(bar.handle, bar.menus, last),
            clear_calls(bar.handle, rest.menus),
        );
    }
}

impl<T: Copy + std::fmt::Debug> MenuBar<T> {
    /// An empty menu bar for the native menu bar with the given handle.
    pub fn new(ptr: usize) -> (bar: Self)
        ensures
            bar@ == (BarView::<T> { handle: ptr, menus: Seq::empty() }),
    {
        let bar = Self { ptr, menus: Vec::new() };
        assert(bar@.menus =~= Seq::empty());
        bar
    }

    /// The handle of the native menu bar.
    pub fn handle(&self) -> (ptr: usize)
        ensures
            ptr == self@.handle,
    {
        self.ptr
    }

    /// The menu at position `i`.
    pub fn menu(&self, i: usize) -> (menu: &Menu<T>)
        requires
            i < self@.menus.len(),
        ensures
            menu@ == self@.menus[i as int],
    {
        &self.menus[i]
    }

    /// The number of menus.
    pub fn len(&self) -> (len: usize)
        ensures
            len == self@.menus.len(),
    {
        self.menus.len()
    }

    /// The call that makes this bar the menu bar of the application.
    pub fn show(&self) -> (call: NativeCall)
        ensures
            call == (NativeCall::SetMenuBar { bar: self@.handle }),
    {
        NativeCall::SetMenuBar { bar: self.ptr }
    }

    /// The call that puts `menu` at position `i` of the native bar.
    fn insert_call(&self, menu: &Menu<T>, i: usize) -> (call: NativeCall)
        ensures
            call@ == self@.insert_call(i as int, menu@),
    {
        let name = match menu.name() {
            Some(name) => name.clone(),
            None => "Default".to_string(),
        };
        NativeCall::InsertToMenuBar { bar: self.ptr, menu: menu.handle(), index: i, name }
    }

    /// Puts `menu` after the menus of the bar, and gives the call that does
    /// the same to the native bar.
    pub fn append(&mut self, menu: Menu<T>) -> (call: NativeCall)
        ensures
            final(self)@ == old(self)@.with_menu(old(self)@.menus.len() as int, menu@),
            call@ == old(self)@.insert_call(old(self)@.menus.len() as int, menu@),
            bar_after_call(old(self)@.handle, old(self)@.handles(), call@) == Some(
                final(self)@.handles(),
            ),
    {
        let call = self.insert_call(&menu, self.menus.len());
        self.menus.push(menu);
        assert(self@.menus =~= old(self)@.menus.insert(old(self)@.menus.len() as int, menu@));
        assert(self@.handles() =~= old(self)@.handles().insert(
            old(self)@.menus.len() as int,
            menu@.handle,
        ));
        call
    }

    /// Puts `menu` at position `i` of the bar, and gives the call that does
    /// the same to the native bar.
    pub fn insert(&mut self, menu: Menu<T>, i: usize) -> (call: NativeCall)
        requires
            i <= old(self)@.menus.len(),
        ensures
            final(self)@ == old(self)@.with_menu(i as int, menu@),
            call@ == old(self)@.insert_call(i as int, menu@),
            bar_after_call(old(self)@.handle, old(self)@.handles(), call@) == Some(
                final(self)@.handles(),
            ),
    {
        let call = self.insert_call(&menu, i);
        self.menus.insert(i, menu);
        assert(self@.menus =~= old(self)@.menus.insert(i as int, menu@));
        assert(self@.handles() =~= old(self)@.handles().insert(i as int, menu@.handle));
        call
    }

    /// Takes the menu at position `i` out of the bar. The calls remove it
    /// from the native bar and then destroy it and the menus below it,
    /// leaves first.
    pub fn remove(&mut self, i: usize) -> (calls: Vec<NativeCall>)
        requires
            i < old(self)@.menus.len(),
        ensures
            final(self)@ == old(self)@.without_menu(i as int),
            calls_view(calls@) == removal_calls(old(self)@.handle, old(self)@.menus, i as int),
            bar_after_calls(old(self)@.handle, old(self)@.handles(), calls_view(calls@)) == Some(
                final(self)@.handles(),
            ),
    {
        let mut calls = Vec::new();
        calls.push(NativeCall::RemoveFromMenuBar { bar: self.ptr, index: i });
        let removed = self.menus.remove(i);
        assert(self@.menus =~= old(self)@.menus.remove(i as int));
        assert(calls_view(calls@) =~= seq![
            NativeCallView::RemoveFromMenuBar { bar: old(self)@.handle, index: i as int },
        ]);
        removed.delete_into(&mut calls);
        proof {
            lemma_removal_on_native_bar(old(self)@, i as int);
        }
        calls
    }

    /// Takes every menu out of the bar, from the last to the first.
    pub fn clear(&mut self) -> (calls: Vec<NativeCall>)
        ensures
            final(self)@ == (BarView::<T> { handle: old(self)@.handle, menus: Seq::empty() }),
            calls_view(calls@) == clear_calls(old(self)@.handle, old(self)@.menus),
            bar_after_calls(old(self)@.handle, old(self)@.handles(), calls_view(calls@)) == Some(
                Seq::<usize>::empty(),
            ),
    {
        let mut calls: Vec<NativeCall> = Vec::new();
        let mut i: usize = self.menus.len();
        assert(self@.menus.take(i as int) =~= self@.menus);
        assert(calls_view(calls@) =~= Seq::<NativeCallView>::empty());
        while i > 0
            invariant
                self@.handle == old(self)@.handle,
                i <= old(self)@.menus.len(),
                self@.menus == old(self)@.menus.take(i as int),
                calls_view(calls@) + clear_calls(self@.handle, self@.menus) == clear_calls(
                    old(self)@.handle,
                    old(self)@.menus,
                ),
            decreases i,
        {
            i -= 1;
            let ghost before = self@;
            let ghost done = calls_view(calls@);
            let mut step = self.remove(i);
            let ghost taken = calls_view(step@);
            calls.append(&mut step);
            proof {
                assert(self@.menus =~= old(self)@.menus.take(i as int));
                assert(self@.menus =~= before.menus.drop_last());
                assert(calls_view(calls@) =~= done + taken);
                assert((done + taken) + clear_calls(self@.handle, self@.menus) =~= done + (taken
                    + clear_calls(self@.handle, self@.menus)));
            }
        }
        proof {
            assert(self@.menus =~= Seq::<MenuView<T>>::empty());
            assert(calls_view(calls@) + Seq::<NativeCallView>::empty() =~= calls_view(calls@));
            lemma_clear_empties_native_bar(old(self)@);
        }
        calls
    }

    /// The identifier of the entry that the toolkit names by `event_id`: of
    /// the first such entry, menu after menu and depth first.
    pub fn get_entry_from_event_id(&self, event_id: i32) -> (id: Option<T>)
        ensures
            id == self@.entry_from_event_id(event_id),
    {
        let ghost wanted = has_event::<T>(event_id);
        let mut i: usize = 0;
        while i < self.menus.len()
            invariant
                i <= self.menus.len(),
                wanted == has_event::<T>(event_id),
                first_slot(bar_slots(self@.menus.take(i as int)), wanted) is None,
            decreases self.menus.len() - i,
        {
            let found = self.menus[i].get_entry_from_event_id(event_id);
            proof {
                let upto = self@.menus.take(i + 1);
                assert(upto.drop_last() =~= self@.menus.take(i as int));
                assert(upto.last() == self@.menus[i as int]);
                lemma_first_slot_add(
                    bar_slots(self@.menus.take(i as int)),
                    self@.menus[i as int].slots(),
                    wanted,
                );
            }
            if found.is_some() {
                proof {
                    assert(self@.menus =~= self@.menus.take(i + 1) + self@.menus.skip(i + 1));
                    lemma_bar_slots_add(self@.menus.take(i + 1), self@.menus.skip(i + 1));
                    lemma_first_slot_add(
                        bar_slots(self@.menus.take(i + 1)),
                        bar_slots(self@.menus.skip(i + 1)),
                        wanted,
                    );
                }
                return found;
            }
            i += 1;
        }
        proof {
            assert(self@.menus.take(i as int) =~= self@.menus);
        }
        None
    }

    /// Gives the bar up. The calls empty it, which destroys its menus, and
    /// then destroy the native bar.
    pub fn destroy(self) -> (calls: Vec<NativeCall>)
        ensures
            calls_view(calls@) == clear_calls(self@.handle, self@.menus).push(
                NativeCallView::DeleteMenuBar { bar: self@.handle },
            ),
    {
        let mut bar = self;
        let mut calls = bar.clear();
        calls.push(NativeCall::DeleteMenuBar { bar: bar.ptr });
        assert(calls_view(calls@) =~= clear_calls(self@.handle, self@.menus).push(
            NativeCallView::DeleteMenuBar { bar: self@.handle },
        ));
        calls
    }
}

} // verus!
