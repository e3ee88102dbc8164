use vstd::prelude::*;

use super::items::{
    clone_items, same_items, ActionItem, MenuItem, SeparatorItem, SubMenuItem,
};

verus! {

broadcast use vstd::std_specs::vec::axiom_vec_index_decreases;

/// A menu containing a title and a collection of menu items.
///
/// Menus are displayed as dropdowns when opened and support keyboard navigation
/// with hotkeys for quick access.
#[derive(Debug, PartialEq, Eq)]
pub struct Menu {
    /// Title text displayed in the menu bar
    pub title: String,
    /// Collection of menu items in this menu
    pub items: Vec<MenuItem>,
    /// Whether the menu is enabled
    pub enabled: bool,
    /// Optional hotkey for quick access to this menu
    pub hotkey: Option<char>,
    /// Index of the currently focused item when this menu is open
    pub focused_item: Option<usize>,
}

// ---------------------------------------------------------------------------
// Closing submenus
// ---------------------------------------------------------------------------

/// `b` is `a` with every submenu in it, at every depth, closed and unfocused;
/// everything else is left as it was.
pub open spec fn closed_item(a: MenuItem, b: MenuItem) -> bool
    decreases a,
{
    match a {
        MenuItem::SubMenu(s) => match b {
            MenuItem::SubMenu(t) => {
                &&& t.label == s.label
                &&& t.enabled == s.enabled
                &&& t.hotkey == s.hotkey
                &&& t.help_context == s.help_context
                &&& t.focused_item is None
                &&& !t.is_open
                &&& s.items@.len() == t.items@.len()
                &&& forall|i: int|
                    #![trigger s.items@[i]]
                    0 <= i < s.items@.len() ==> closed_item(s.items@[i], t.items@[i])
            },
            _ => false,
        },
        _ => b == a,
    }
}

/// `b` is, item by item, `a` with every submenu closed and unfocused.
pub open spec fn closed_items(a: Seq<MenuItem>, b: Seq<MenuItem>) -> bool {
    &&& a.len() == b.len()
    &&& forall|i: int| #![trigger a[i], b[i]] 0 <= i < a.len() ==> closed_item(a[i], b[i])
}

/// No submenu in the item, at any depth, is open or has a focused item.
pub open spec fn fully_closed(a: MenuItem) -> bool
    decreases a,
{
    match a {
        MenuItem::SubMenu(s) => {
            &&& !s.is_open
            &&& s.focused_item is None
            &&& forall|i: int|
                #![trigger s.items@[i]]
                0 <= i < s.items@.len() ==> fully_closed(s.items@[i])
        },
        _ => true,
    }
}

/// `b` is menu `a` closed: no focused item, every submenu closed; title, hotkey and
/// enabled state unchanged.
pub open spec fn closed_menu(a: Menu, b: Menu) -> bool {
    &&& b.title == a.title
    &&& b.enabled == a.enabled
    &&& b.hotkey == a.hotkey
    &&& b.focused_item is None
    &&& closed_items(a.items@, b.items@)
}

proof fn lemma_closed_submenu(s: SubMenuItem, t: SubMenuItem)
    requires
        t.label == s.label,
        t.enabled == s.enabled,
        t.hotkey == s.hotkey,
        t.help_context == s.help_context,
        t.focused_item is None,
        !t.is_open,
        closed_items(s.items@, t.items@),
    ensures
        closed_item(MenuItem::SubMenu(s), MenuItem::SubMenu(t)),
{
}

impl Menu {
    /// Closes, in place, every submenu of the list and of their submenus.
    fn close_submenus_recursive(items: &mut Vec<MenuItem>)
        ensures
            closed_items(old(items)@, final(items)@),
        decreases old(items)@,
    {
        let ghost orig = items@;
        let mut i: usize = 0;
        while i < items.len()
            invariant
                i <= items@.len(),
                items@.len() == orig.len(),
                orig == old(items)@,
                forall|j: int| #![trigger orig[j]] 0 <= j < i ==> closed_item(orig[j], items@[j]),
                forall|j: int| #![trigger orig[j]] i <= j < orig.len() ==> items@[j] == orig[j],
            decreases orig.len() - i,
        {
            let is_sub = match &items[i] {
                MenuItem::SubMenu(_) => true,
                _ => false,
            };
            if is_sub {
                let mut item = MenuItem::Separator(SeparatorItem);
                std::mem::swap(&mut item, &mut items[i]);
                match item {
                    MenuItem::SubMenu(mut s) => {
                        let ghost s0 = s;
                        assert(decreases_to!(orig => s0.items@)) by {
                            assert(decreases_to!(orig => orig[i as int]));
                        }
                        Menu::close_submenus_recursive(&mut s.items);
                        s.is_open = false;
                        s.focused_item = None;
                        proof {
                            lemma_closed_submenu(s0, s);
                        }
                        items.set(i, MenuItem::SubMenu(s));
                    },
                    _ => {
                        items.set(i, item);
                    },
                }
            }
            i = i + 1;
        }
    }
}

impl Clone for Menu {
    fn clone(&self) -> (r: Menu)
        ensures
            r.title == self.title,
            same_items(self.items@, r.items@),
            r.enabled == self.enabled,
            r.hotkey == self.hotkey,
            r.focused_item == self.focused_item,
    {
        Menu {
            title: self.title.clone(),
            items: clone_items(&self.items),
            enabled: self.enabled,
            hotkey: self.hotkey,
            focused_item: self.focused_item,
        }
    }
}

// ---------------------------------------------------------------------------
// Selectable items
// ---------------------------------------------------------------------------

/// No item with an index in `lo..hi` is selectable.
pub open spec fn no_selectable_in(items: Seq<MenuItem>, lo: int, hi: int) -> bool {
    forall|j: int| #![trigger items[j]] lo <= j < hi && 0 <= j < items.len() ==> !items[j].spec_selectable()
}

/// `r` is the first selectable index in `lo..hi` (within the list).
pub open spec fn first_selectable_in(items: Seq<MenuItem>, lo: int, hi: int, r: int) -> bool {
    &&& lo <= r < hi
    &&& 0 <= r < items.len()
    &&& items[r].spec_selectable()
    &&& no_selectable_in(items, lo, r)
}

/// `r` is the last selectable index in `lo..hi` (within the list).
pub open spec fn last_selectable_in(items: Seq<MenuItem>, lo: int, hi: int, r: int) -> bool {
    &&& lo <= r < hi
    &&& 0 <= r < items.len()
    &&& items[r].spec_selectable()
    &&& no_selectable_in(items, r + 1, hi)
}

/// `r` is the first selectable index of the whole list, or `None` when there is none.
pub open spec fn is_first_selectable(items: Seq<MenuItem>, r: Option<usize>) -> bool {
    match r {
        Some(i) => first_selectable_in(items, 0, items.len() as int, i as int),
        None => no_selectable_in(items, 0, items.len() as int),
    }
}

/// `r` is the last selectable index of the whole list, or `None` when there is none.
pub open spec fn is_last_selectable(items: Seq<MenuItem>, r: Option<usize>) -> bool {
    match r {
        Some(i) => last_selectable_in(items, 0, items.len() as int, i as int),
        None => no_selectable_in(items, 0, items.len() as int),
    }
}

/// `r` is the selectable item after `current`: the first selectable index above it,
/// or, when there is none, wrapping around to the first selectable index.
pub open spec fn is_next_selectable(items: Seq<MenuItem>, current: int, r: Option<usize>) -> bool {
    ||| (r matches Some(i) && first_selectable_in(items, current + 1, items.len() as int, i as int))
    ||| (no_selectable_in(items, current + 1, items.len() as int) && is_first_selectable(items, r))
}

/// `r` is the selectable item before `current`: the last selectable index below it,
/// or, when there is none, wrapping around to the last selectable index.
pub open spec fn is_previous_selectable(items: Seq<MenuItem>, current: int, r: Option<usize>) -> bool {
    ||| (r matches Some(i) && last_selectable_in(items, 0, current, i as int))
    ||| (no_selectable_in(items, 0, current) && is_last_selectable(items, r))
}

/// Where the focus of `items` goes on "next": after the focused item, or to the first
/// selectable item when nothing is focused.
pub open spec fn is_focus_next(items: Seq<MenuItem>, focused: Option<usize>, r: Option<usize>) -> bool {
    match focused {
        Some(c) => is_next_selectable(items, c as int, r),
        None => is_first_selectable(items, r),
    }
}

/// Where the focus of `items` goes on "previous": before the focused item, or to the last
/// selectable item when nothing is focused.
pub open spec fn is_focus_previous(items: Seq<MenuItem>, focused: Option<usize>, r: Option<usize>) -> bool {
    match focused {
        Some(c) => is_previous_selectable(items, c as int, r),
        None => is_last_selectable(items, r),
    }
}

/// The index of the first selectable item of `items` in `lo..hi`, if any.
fn first_selectable_between(items: &Vec<MenuItem>, lo: usize, hi: usize) -> (r: Option<usize>)
    requires
        hi <= items@.len(),
    ensures
        match r {
            Some(i) => first_selectable_in(items@, lo as int, hi as int, i as int),
            None => no_selectable_in(items@, lo as int, hi as int),
        },
{
    let mut i = lo;
    while i < hi
        invariant
            lo <= i,
            hi <= items@.len(),
            no_selectable_in(items@, lo as int, i as int),
        decreases hi - i,
    {
        if items[i].is_selectable() {
            return Some(i);
        }
        i = i + 1;
    }
    None
}

/// The index of the last selectable item of `items` in `lo..hi`, if any.
fn last_selectable_between(items: &Vec<MenuItem>, lo: usize, hi: usize) -> (r: Option<usize>)
    requires
        hi <= items@.len(),
    ensures
        match r {
            Some(i) => last_selectable_in(items@, lo as int, hi as int, i as int),
            None => no_selectable_in(items@, lo as int, hi as int),
        },
{
    let mut i = hi;
    while i > lo
        invariant
            i <= hi,
            hi <= items@.len(),
            no_selectable_in(items@, i as int, hi as int),
        decreases i - lo,
    {
        if items[i - 1].is_selectable() {
            return Some(i - 1);
        }
        i = i - 1;
    }
    None
}

// ---------------------------------------------------------------------------
// Building menus
// ---------------------------------------------------------------------------

impl Menu {
    /// Whether this is a fresh, enabled and unfocused menu with the given title, hotkey
    /// and items.
    pub open spec fn is_fresh(self, title: Seq<char>, hotkey: Option<char>, items: Seq<MenuItem>) -> bool {
        &&& self.title@ == title
        &&& self.items@ == items
        &&& self.enabled
        &&& self.hotkey == hotkey
        &&& self.focused_item is None
    }

    /// Creates a new menu with the given title.
    pub fn new(title: &str) -> (r: Menu)
        ensures
            r.is_fresh(title@, None, Seq::empty()),
    {
        Menu {
            title: title.to_owned(),
            items: Vec::new(),
            enabled: true,
            hotkey: None,
            focused_item: None,
        }
    }

    /// Creates a new menu with a hotkey.
    pub fn with_hotkey(title: &str, hotkey: char) -> (r: Menu)
        ensures
            r.is_fresh(title@, Some(hotkey), Seq::empty()),
    {
        Menu {
            title: title.to_owned(),
            items: Vec::new(),
            enabled: true,
            hotkey: Some(hotkey),
            focused_item: None,
        }
    }

    /// Creates a new menu with title, hotkey, and items.
    pub fn with_items(title: &str, hotkey: Option<char>, items: Vec<MenuItem>) -> (r: Menu)
        ensures
            r.is_fresh(title@, hotkey, items@),
            r.items == items,
    {
        Menu { title: title.to_owned(), items, enabled: true, hotkey, focused_item: None }
    }

    /// Sets the hotkey for this menu (builder pattern).
    pub fn hotkey(self, hotkey: char) -> (r: Menu)
        ensures
            r == (Menu { hotkey: Some(hotkey), ..self }),
    {
        let mut m = self;
        m.hotkey = Some(hotkey);
        m
    }

    /// Adds an item to this menu (builder pattern).
    pub fn item(self, item: MenuItem) -> (r: Menu)
        ensures
            r.items@ == self.items@.push(item),
            r == (Menu { items: r.items, ..self }),
    {
        let mut m = self;
        m.items.push(item);
        m
    }

    /// Adds multiple items to this menu (builder pattern).
    pub fn items(self, items: Vec<MenuItem>) -> (r: Menu)
        ensures
            r.items@ == self.items@ + items@,
            r == (Menu { items: r.items, ..self }),
    {
        let mut m = self;
        let mut items = items;
        m.items.append(&mut items);
        m
    }

    /// Adds an action item, with the given hotkey if any.
    pub fn add_action(&mut self, label: &str, command: &str, hotkey: Option<char>) -> (r: &mut Menu)
        ensures
            r.items@.len() == old(self).items@.len() + 1,
            r.items@.drop_last() == old(self).items@,
            r.items@.last() matches MenuItem::Action(a) && a.is_fresh(
                label@,
                command@,
                hotkey,
                None,
            ),
            *r == (Menu { items: r.items, ..*old(self) }),
            *final(self) == *final(r),
    {
        let action = ActionItem::new(label, command);
        let action = match hotkey {
            Some(hk) => action.hotkey(hk),
            None => action,
        };
        self.items.push(MenuItem::Action(action));
        self
    }

    /// Adds a separator.
    pub fn add_separator(&mut self) -> (r: &mut Menu)
        ensures
            r.items@.len() == old(self).items@.len() + 1,
            r.items@.drop_last() == old(self).items@,
            r.items@.last() is Separator,
            *r == (Menu { items: r.items, ..*old(self) }),
            *final(self) == *final(r),
    {
        self.items.push(MenuItem::Separator(SeparatorItem::new()));
        self
    }

    /// Adds an empty submenu with the given label and hotkey.
    pub fn add_submenu(&mut self, label: &str, hotkey: Option<char>) -> (r: &mut Menu)
        ensures
            r.items@.len() == old(self).items@.len() + 1,
            r.items@.drop_last() == old(self).items@,
            r.items@.last() matches MenuItem::SubMenu(s) && s.is_fresh(
                label@,
                hotkey,
                Seq::empty(),
            ),
            *r == (Menu { items: r.items, ..*old(self) }),
            *final(self) == *final(r),
    {
        self.items.push(MenuItem::SubMenu(SubMenuItem::with_items(label, hotkey, Vec::new())));
        self
    }

    /// Adds a menu item to this menu.
    pub fn add_item(&mut self, item: MenuItem)
        ensures
            final(self).items@ == old(self).items@.push(item),
            *final(self) == (Menu { items: final(self).items, ..*old(self) }),
    {
        self.items.push(item);
    }
}

// ---------------------------------------------------------------------------
// Menu state
// ---------------------------------------------------------------------------

impl Menu {
    /// Sets the enabled state of the menu.
    pub fn set_enabled(&mut self, enabled: bool)
        ensures
            *final(self) == (Menu { enabled, ..*old(self) }),
    {
        self.enabled = enabled;
    }

    /// Moves the focus to the next selectable item, wrapping around at the end; with
    /// nothing focused, to the first selectable item.
    pub fn focus_next_item(&mut self)
        requires
            old(self).focused_item != Some(usize::MAX),
        ensures
            is_focus_next(old(self).items@, old(self).focused_item, final(self).focused_item),
            *final(self) == (Menu { focused_item: final(self).focused_item, ..*old(self) }),
    {
        let next = match self.focused_item {
            Some(current) => self.find_next_selectable_item(current),
            None => self.find_first_selectable_item(),
        };
        self.focused_item = next;
    }

    /// Moves the focus to the previous selectable item, wrapping around at the start; with
    /// nothing focused, to the last selectable item.
    pub fn focus_previous_item(&mut self)
        ensures
            is_focus_previous(old(self).items@, old(self).focused_item, final(self).focused_item),
            *final(self) == (Menu { focused_item: final(self).focused_item, ..*old(self) }),
    {
        let previous = match self.focused_item {
            Some(current) => self.find_previous_selectable_item(current),
            None => self.find_last_selectable_item(),
        };
        self.focused_item = previous;
    }

    /// The currently focused item, if the focus points into the menu.
    pub fn get_focused_item(&self) -> (r: Option<&MenuItem>)
        ensures
            r == (match self.focused_item {
                Some(i) => if i < self.items@.len() {
                    Some(&self.items@[i as int])
                } else {
                    None
                },
                None => None,
            }),
    {
        match self.focused_item {
            Some(i) => {
                if i < self.items.len() {
                    Some(&self.items[i])
                } else {
                    None
                }
            },
            None => None,
        }
    }

    /// Closes every submenu of the menu, at every depth, and clears their focus.
    pub fn close_all_submenus(&mut self)
        ensures
            closed_items(old(self).items@, final(self).items@),
            *final(self) == (Menu { items: final(self).items, ..*old(self) }),
    {
        Menu::close_submenus_recursive(&mut self.items);
    }

    /// Finds the first selectable (non-separator) menu item.
    pub fn find_first_selectable_item(&self) -> (r: Option<usize>)
        ensures
            is_first_selectable(self.items@, r),
    {
        first_selectable_between(&self.items, 0, self.items.len())
    }

    /// Finds the last selectable menu item.
    pub fn find_last_selectable_item(&self) -> (r: Option<usize>)
        ensures
            is_last_selectable(self.items@, r),
    {
        last_selectable_between(&self.items, 0, self.items.len())
    }

    /// Finds the selectable item after `current`, wrapping around to the first one.
    pub fn find_next_selectable_item(&self, current: usize) -> (r: Option<usize>)
        requires
            current < usize::MAX,
        ensures
            is_next_selectable(self.items@, current as int, r),
    {
        let len = self.items.len();
        let after = if current + 1 <= len {
            first_selectable_between(&self.items, current + 1, len)
        } else {
            None
        };
        match after {
            Some(i) => Some(i),
            None => self.find_first_selectable_item(),
        }
    }

    /// Finds the selectable item before `current`, wrapping around to the last one.
    pub fn find_previous_selectable_item(&self, current: usize) -> (r: Option<usize>)
        ensures
            is_previous_selectable(self.items@, current as int, r),
    {
        let len = self.items.len();
        let bound = if current < len {
            current
        } else {
            len
        };
        match last_selectable_between(&self.items, 0, bound) {
            Some(i) => Some(i),
            None => self.find_last_selectable_item(),
        }
    }
}

} // verus!
