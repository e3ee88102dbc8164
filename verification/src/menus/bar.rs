use vstd::prelude::*;

use super::items::{same_items, MenuItem};
use super::menu::{closed_menu, Menu};

verus! {

/// A menu bar widget that will be displayed at the top of the screen.
///
/// Only one menu can be open at a time. When a menu is opened, it displays its dropdown
/// and becomes the active menu for keyboard navigation.
#[derive(Debug, PartialEq, Eq)]
pub struct MenuBar {
    /// Collection of menus in the menu bar
    pub menus: Vec<Menu>,
    /// Index of the currently opened menu (None means no menu is open)
    pub opened_menu: Option<usize>,
}

/// Whether `b` is a copy of menu `a`.
pub open spec fn same_menu(a: Menu, b: Menu) -> bool {
    &&& b.title == a.title
    &&& same_items(a.items@, b.items@)
    &&& b.enabled == a.enabled
    &&& b.hotkey == a.hotkey
    &&& b.focused_item == a.focused_item
}

/// The index that "next menu" opens: the one after the open menu, wrapping around,
/// or the first one when no menu is open.
pub open spec fn next_menu_index(opened: Option<usize>, len: nat) -> int {
    match opened {
        Some(c) => (c + 1) % (len as int),
        None => 0,
    }
}

/// The index that "previous menu" opens: the one before the open menu, wrapping around
/// from the first to the last, or the last one when no menu is open.
pub open spec fn previous_menu_index(opened: Option<usize>, len: nat) -> int {
    match opened {
        Some(c) => if c == 0 {
            len - 1
        } else {
            c - 1
        },
        None => len - 1,
    }
}

/// The menus after opening menu `index` of `menus`, of which `opened` was open: the
/// menu that was open is closed, and the newly opened one has no focused item.
pub open spec fn menus_after_open(
    menus: Seq<Menu>,
    opened: Option<usize>,
    index: int,
    result: Seq<Menu>,
) -> bool {
    &&& result.len() == menus.len()
    &&& forall|j: int|
        #![trigger result[j]]
        0 <= j < menus.len() ==> {
            if j == index {
                if opened == Some(index as usize) {
                    closed_menu(menus[j], result[j])
                } else {
                    result[j] == (Menu { focused_item: None, ..menus[j] })
                }
            } else if opened == Some(j as usize) {
                closed_menu(menus[j], result[j])
            } else {
                result[j] == menus[j]
            }
        }
}

/// The menus after closing the open menu `opened` of `menus`: that menu is closed,
/// the others are unchanged.
pub open spec fn menus_after_close(menus: Seq<Menu>, opened: Option<usize>, result: Seq<Menu>) -> bool {
    &&& result.len() == menus.len()
    &&& forall|j: int|
        #![trigger result[j]]
        0 <= j < menus.len() ==> if opened == Some(j as usize) {
            closed_menu(menus[j], result[j])
        } else {
            result[j] == menus[j]
        }
}

/// The effect of `open_menu(index)`: an index out of range changes nothing; otherwise
/// `index` is the one open menu.
pub open spec fn opened_at(before: MenuBar, index: int, after: MenuBar) -> bool {
    if 0 <= index < before.menus@.len() {
        &&& after.opened_menu == Some(index as usize)
        &&& menus_after_open(before.menus@, before.opened_menu, index, after.menus@)
    } else {
        after == before
    }
}

impl MenuBar {
    /// The menu that is open, if the open index points into the bar.
    pub open spec fn spec_opened_menu(&self) -> Option<Menu> {
        match self.opened_menu {
            Some(i) => if i < self.menus@.len() {
                Some(self.menus@[i as int])
            } else {
                None
            },
            None => None,
        }
    }
}

// ---------------------------------------------------------------------------
// Building menu bars
// ---------------------------------------------------------------------------

impl MenuBar {
    /// Creates a new empty menu bar.
    pub fn new() -> (r: MenuBar)
        ensures
            r.menus@ == Seq::<Menu>::empty(),
            r.opened_menu is None,
    {
        MenuBar { menus: Vec::new(), opened_menu: None }
    }

    /// Creates a new menu bar with the given menus, none of them open.
    pub fn with_menus(menus: Vec<Menu>) -> (r: MenuBar)
        ensures
            r.menus == menus,
            r.opened_menu is None,
    {
        MenuBar { menus, opened_menu: None }
    }

    /// Creates a new menu bar from (title, hotkey, items) definitions, in order, none of
    /// the menus open.
    pub fn from_menus(menus: Vec<(&str, Option<char>, Vec<MenuItem>)>) -> (r: MenuBar)
        ensures
            r.menus@.len() == menus@.len(),
            forall|i: int|
                #![trigger r.menus@[i]]
                0 <= i < menus@.len() ==> r.menus@[i].is_fresh(
                    menus@[i].0@,
                    menus@[i].1,
                    menus@[i].2@,
                ),
            r.opened_menu is None,
    {
        let ghost defs = menus@;
        let mut rest = menus;
        let mut out: Vec<Menu> = Vec::new();
        while rest.len() > 0
            invariant
                out@.len() + rest@.len() == defs.len(),
                rest@ == defs.subrange(out@.len() as int, defs.len() as int),
                forall|i: int|
                    #![trigger out@[i]]
                    0 <= i < out@.len() ==> out@[i].is_fresh(defs[i].0@, defs[i].1, defs[i].2@),
            decreases rest@.len(),
        {
            let (title, hotkey, items) = rest.remove(0);
            out.push(Menu::with_items(title, hotkey, items));
        }
        MenuBar { menus: out, opened_menu: None }
    }

    /// Adds a menu at the end of the menu bar.
    pub fn add_menu(&mut self, menu: Menu) -> (r: &mut MenuBar)
        ensures
            r.menus@ == old(self).menus@.push(menu),
            r.opened_menu == old(self).opened_menu,
            *final(self) == *final(r),
    {
        self.menus.push(menu);
        self
    }
}

impl Default for MenuBar {
    fn default() -> (r: MenuBar)
        ensures
            r.menus@ == Seq::<Menu>::empty(),
            r.opened_menu is None,
    {
        MenuBar::new()
    }
}

fn clone_menus(menus: &Vec<Menu>) -> (r: Vec<Menu>)
    ensures
        r@.len() == menus@.len(),
        forall|i: int| #![trigger r@[i]] 0 <= i < menus@.len() ==> same_menu(menus@[i], r@[i]),
{
    let mut r: Vec<Menu> = Vec::new();
    let mut i: usize = 0;
    while i < menus.len()
        invariant
            i <= menus@.len(),
            r@.len() == i,
            forall|j: int| #![trigger r@[j]] 0 <= j < i ==> same_menu(menus@[j], r@[j]),
        decreases menus@.len() - i,
    {
        let m = menus[i].clone();
        r.push(m);
        i = i + 1;
    }
    r
}

impl Clone for MenuBar {
    fn clone(&self) -> (r: MenuBar)
        ensures
            r.menus@.len() == self.menus@.len(),
            forall|i: int|
                #![trigger r.menus@[i]]
                0 <= i < self.menus@.len() ==> same_menu(self.menus@[i], r.menus@[i]),
            r.opened_menu == self.opened_menu,
    {
        MenuBar { menus: clone_menus(&self.menus), opened_menu: self.opened_menu }
    }
}

// ---------------------------------------------------------------------------
// Menu bar state
// ---------------------------------------------------------------------------

impl MenuBar {
    /// Checks whether any menu is open.
    pub fn has_open_menu(&self) -> (r: bool)
        ensures
            r == self.opened_menu is Some,
    {
        self.opened_menu.is_some()
    }

    /// The currently opened menu, if the open index points into the bar.
    pub fn opened_menu(&self) -> (r: Option<&Menu>)
        ensures
            match r {
                Some(m) => self.spec_opened_menu() == Some(*m),
                None => self.spec_opened_menu() is None,
            },
    {
        match self.opened_menu {
            Some(i) => {
                if i < self.menus.len() {
                    Some(&self.menus[i])
                } else {
                    None
                }
            },
            None => None,
        }
    }

    /// The currently opened menu, for changing it in place.
    pub fn opened_menu_mut(&mut self) -> (r: Option<&mut Menu>)
        ensures
            match old(self).spec_opened_menu() {
                Some(m) => {
                    &&& r is Some
                    &&& *r.unwrap() == m
                    &&& final(self).menus@ == old(self).menus@.update(
                        old(self).opened_menu.unwrap() as int,
                        *final(r.unwrap()),
                    )
                    &&& final(self).opened_menu == old(self).opened_menu
                },
                None => r is None && *final(self) == *old(self),
            },
    {
        match self.opened_menu {
            Some(i) => {
                if i < self.menus.len() {
                    Some(&mut self.menus[i])
                } else {
                    None
                }
            },
            None => None,
        }
    }

    /// Closes the menu at `index`, if it is in range: no focused item, no open submenu.
    fn close_menu_at(&mut self, index: usize)
        requires
            index < old(self).menus@.len(),
        ensures
            final(self).menus@.len() == old(self).menus@.len(),
            closed_menu(old(self).menus@[index as int], final(self).menus@[index as int]),
            forall|j: int|
                #![trigger final(self).menus@[j]]
                0 <= j < old(self).menus@.len() && j != index ==> final(self).menus@[j]
                    == old(self).menus@[j],
            final(self).opened_menu == old(self).opened_menu,
    {
        let mut menu = Menu::new("");
        std::mem::swap(&mut menu, &mut self.menus[index]);
        menu.focused_item = None;
        menu.close_all_submenus();
        self.menus.set(index, menu);
    }

    /// Opens the menu at `index`, closing the menu that was open; an index out of range
    /// changes nothing.
    pub fn open_menu(&mut self, index: usize)
        ensures
            opened_at(*old(self), index as int, *final(self)),
    {
        if index < self.menus.len() {
            if let Some(current_index) = self.opened_menu {
                if current_index < self.menus.len() {
                    self.close_menu_at(current_index);
                }
            }
            self.opened_menu = Some(index);
            let mut menu = Menu::new("");
            std::mem::swap(&mut menu, &mut self.menus[index]);
            menu.focused_item = None;
            self.menus.set(index, menu);
        }
    }

    /// Closes the open menu, if any: it loses its focus and its submenus are closed.
    pub fn close_menu(&mut self)
        ensures
            final(self).opened_menu is None,
            menus_after_close(old(self).menus@, old(self).opened_menu, final(self).menus@),
    {
        if let Some(index) = self.opened_menu {
            if index < self.menus.len() {
                self.close_menu_at(index);
            }
        }
        self.opened_menu = None;
    }

    /// Opens the menu after the open one, wrapping around; the first one when none is open.
    /// A bar without menus is left unchanged.
    pub fn open_next_menu(&mut self)
        requires
            old(self).opened_menu != Some(usize::MAX),
        ensures
            if old(self).menus@.len() == 0 {
                *final(self) == *old(self)
            } else {
                opened_at(
                    *old(self),
                    next_menu_index(old(self).opened_menu, old(self).menus@.len()),
                    *final(self),
                )
            },
    {
        if self.menus.len() == 0 {
            return ;
        }
        let next_index = match self.opened_menu {
            Some(current) => (current + 1) % self.menus.len(),
            None => 0,
        };
        self.open_menu(next_index);
    }

    /// Opens the menu before the open one, wrapping around; the last one when none is open.
    /// A bar without menus is left unchanged.
    pub fn open_previous_menu(&mut self)
        ensures
            if old(self).menus@.len() == 0 {
                *final(self) == *old(self)
            } else {
                opened_at(
                    *old(self),
                    previous_menu_index(old(self).opened_menu, old(self).menus@.len()),
                    *final(self),
                )
            },
    {
        if self.menus.len() == 0 {
            return ;
        }
        let prev_index = match self.opened_menu {
            Some(current) => {
                if current == 0 {
                    self.menus.len() - 1
                } else {
                    current - 1
                }
            },
            None => self.menus.len() - 1,
        };
        self.open_menu(prev_index);
    }
}

} // verus!
