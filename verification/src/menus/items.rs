use vstd::prelude::*;

use crate::command::Command;

verus! {

/// The type of a menu item, for pattern matching and type checking.
#[derive(Debug, Clone, Copy, PartialEq, Eq, Structural)]
pub enum MenuItemType {
    Action,
    Separator,
    SubMenu,
}

/// An entry of a menu: an action, a separator or a nested submenu.
#[derive(Debug, PartialEq, Eq)]
pub enum MenuItem {
    Action(ActionItem),
    Separator(SeparatorItem),
    SubMenu(SubMenuItem),
}

/// An action menu item that executes a command when selected.
#[derive(Debug, PartialEq, Eq)]
pub struct ActionItem {
    /// Text label displayed to the user
    pub label: String,
    /// Command to execute when this item is selected
    pub command: Command,
    /// Whether the action is enabled
    pub enabled: bool,
    /// Optional hotkey for quick access
    pub hotkey: Option<char>,
    /// Optional keyboard shortcut display (e.g., "Ctrl+S")
    pub shortcut: Option<String>,
    /// Help context for additional information
    pub help_context: Option<String>,
}

/// A separator menu item for visual grouping.
#[derive(Debug, Clone, Copy, PartialEq, Eq)]
pub struct SeparatorItem;

/// A submenu containing other menu items.
#[derive(Debug, PartialEq, Eq)]
pub struct SubMenuItem {
    /// Text label displayed to the user
    pub label: String,
    /// Collection of menu items in the submenu
    pub items: Vec<MenuItem>,
    /// Whether the submenu is enabled
    pub enabled: bool,
    /// Optional hotkey for quick access
    pub hotkey: Option<char>,
    /// Help context for additional information
    pub help_context: Option<String>,
    /// Index of the currently focused item when this submenu is open
    pub focused_item: Option<usize>,
    /// Whether this submenu is currently open
    pub is_open: bool,
}

/// Another name for the menu item enum.
pub type MenuItemAlias = MenuItem;

/// The text of an optional string slice.
pub open spec fn opt_str_view(o: Option<&str>) -> Option<Seq<char>> {
    match o {
        Some(s) => Some(s@),
        None => None,
    }
}

/// The text of an optional owned string.
pub open spec fn opt_string_view(o: Option<String>) -> Option<Seq<char>> {
    match o {
        Some(s) => Some(s@),
        None => None,
    }
}

/// Common behaviour of the three kinds of menu item.
pub trait MenuItemTrait: core::fmt::Debug + Clone {
    /// The kind of the item.
    spec fn spec_item_type(&self) -> MenuItemType;

    /// The label text of the item, if it has one.
    spec fn spec_label(&self) -> Option<Seq<char>>;

    /// The hotkey of the item, if it has one.
    spec fn spec_hotkey(&self) -> Option<char>;

    /// Whether the item is enabled and selectable.
    spec fn spec_enabled(&self) -> bool;

    /// The help context of the item, if it has one.
    spec fn spec_help_context(&self) -> Option<Seq<char>>;

    /// Returns the type of this menu item.
    fn item_type(&self) -> (r: MenuItemType)
        ensures
            r == self.spec_item_type(),
    ;

    /// Returns the label text of the menu item, if applicable.
    fn label(&self) -> (r: Option<&str>)
        ensures
            opt_str_view(r) == self.spec_label(),
    ;

    /// Returns the hotkey for the menu item, if any.
    fn hotkey(&self) -> (r: Option<char>)
        ensures
            r == self.spec_hotkey(),
    ;

    /// Returns whether the menu item is enabled and selectable.
    fn is_enabled(&self) -> (r: bool)
        ensures
            r == self.spec_enabled(),
    ;

    /// Returns whether the menu item is selectable (not a separator).
    fn is_selectable(&self) -> (r: bool)
        ensures
            r == (self.spec_item_type() != MenuItemType::Separator),
    {
        match self.item_type() {
            MenuItemType::Separator => false,
            _ => true,
        }
    }

    /// Returns help context for the menu item, if any.
    fn help_context(&self) -> (r: Option<&str>)
        ensures
            opt_str_view(r) == self.spec_help_context(),
    ;

    /// Sets the enabled state of the menu item.
    fn set_enabled(&mut self, enabled: bool)
        ensures
            final(self).spec_enabled() == (enabled && old(self).spec_item_type()
                != MenuItemType::Separator),
            final(self).spec_item_type() == old(self).spec_item_type(),
            final(self).spec_label() == old(self).spec_label(),
            final(self).spec_hotkey() == old(self).spec_hotkey(),
            final(self).spec_help_context() == old(self).spec_help_context(),
    ;
}

fn opt_as_str(o: &Option<String>) -> (r: Option<&str>)
    ensures
        opt_str_view(r) == opt_string_view(*o),
{
    match o {
        Some(s) => Some(s.as_str()),
        None => None,
    }
}

impl MenuItemTrait for ActionItem {
    open spec fn spec_item_type(&self) -> MenuItemType {
        MenuItemType::Action
    }

    open spec fn spec_label(&self) -> Option<Seq<char>> {
        Some(self.label@)
    }

    open spec fn spec_hotkey(&self) -> Option<char> {
        self.hotkey
    }

    open spec fn spec_enabled(&self) -> bool {
        self.enabled
    }

    open spec fn spec_help_context(&self) -> Option<Seq<char>> {
        opt_string_view(self.help_context)
    }

    fn item_type(&self) -> (r: MenuItemType) {
        MenuItemType::Action
    }

    fn label(&self) -> (r: Option<&str>) {
        Some(self.label.as_str())
    }

    fn hotkey(&self) -> (r: Option<char>) {
        self.hotkey
    }

    fn is_enabled(&self) -> (r: bool) {
        self.enabled
    }

    fn help_context(&self) -> (r: Option<&str>) {
        opt_as_str(&self.help_context)
    }

    fn set_enabled(&mut self, enabled: bool)
        ensures
            *final(self) == (ActionItem { enabled, ..*old(self) }),
    {
        self.enabled = enabled;
    }
}

impl MenuItemTrait for SeparatorItem {
    open spec fn spec_item_type(&self) -> MenuItemType {
        MenuItemType::Separator
    }

    open spec fn spec_label(&self) -> Option<Seq<char>> {
        None
    }

    open spec fn spec_hotkey(&self) -> Option<char> {
        None
    }

    open spec fn spec_enabled(&self) -> bool {
        false
    }

    open spec fn spec_help_context(&self) -> Option<Seq<char>> {
        None
    }

    fn item_type(&self) -> (r: MenuItemType) {
        MenuItemType::Separator
    }

    fn label(&self) -> (r: Option<&str>) {
        None
    }

    fn hotkey(&self) -> (r: Option<char>) {
        None
    }

    fn is_enabled(&self) -> (r: bool) {
        false
    }

    fn is_selectable(&self) -> (r: bool) {
        false
    }

    fn help_context(&self) -> (r: Option<&str>) {
        None
    }

    fn set_enabled(&mut self, _enabled: bool) {
    }
}

impl MenuItemTrait for SubMenuItem {
    open spec fn spec_item_type(&self) -> MenuItemType {
        MenuItemType::SubMenu
    }

    open spec fn spec_label(&self) -> Option<Seq<char>> {
        Some(self.label@)
    }

    open spec fn spec_hotkey(&self) -> Option<char> {
        self.hotkey
    }

    open spec fn spec_enabled(&self) -> bool {
        self.enabled
    }

    open spec fn spec_help_context(&self) -> Option<Seq<char>> {
        opt_string_view(self.help_context)
    }

    fn item_type(&self) -> (r: MenuItemType) {
        MenuItemType::SubMenu
    }

    fn label(&self) -> (r: Option<&str>) {
        Some(self.label.as_str())
    }

    fn hotkey(&self) -> (r: Option<char>) {
        self.hotkey
    }

    fn is_enabled(&self) -> (r: bool) {
        self.enabled
    }

    fn help_context(&self) -> (r: Option<&str>) {
        opt_as_str(&self.help_context)
    }

    fn set_enabled(&mut self, enabled: bool)
        ensures
            *final(self) == (SubMenuItem { enabled, ..*old(self) }),
    {
        self.enabled = enabled;
    }
}

impl MenuItem {
    /// The label text of the item: that of an action or a submenu; a separator has none.
    pub open spec fn spec_label(&self) -> Option<Seq<char>> {
        match self {
            MenuItem::Action(a) => Some(a.label@),
            MenuItem::SubMenu(s) => Some(s.label@),
            MenuItem::Separator(_) => None,
        }
    }

    /// Whether the item is enabled; a separator never is.
    pub open spec fn spec_enabled(&self) -> bool {
        match self {
            MenuItem::Action(a) => a.enabled,
            MenuItem::SubMenu(s) => s.enabled,
            MenuItem::Separator(_) => false,
        }
    }

    /// The kind of the item.
    pub open spec fn spec_item_type(&self) -> MenuItemType {
        match self {
            MenuItem::Action(_) => MenuItemType::Action,
            MenuItem::Separator(_) => MenuItemType::Separator,
            MenuItem::SubMenu(_) => MenuItemType::SubMenu,
        }
    }

    /// The hotkey of the item; a separator has none.
    pub open spec fn spec_hotkey(&self) -> Option<char> {
        match self {
            MenuItem::Action(a) => a.hotkey,
            MenuItem::SubMenu(s) => s.hotkey,
            MenuItem::Separator(_) => None,
        }
    }

    /// Whether the item can receive focus: every item but a separator.
    pub open spec fn spec_selectable(&self) -> bool {
        !(self is Separator)
    }

    /// Gets the text of the menu item (if applicable).
    pub fn text(&self) -> (r: Option<&str>)
        ensures
            opt_str_view(r) == self.spec_label(),
    {
        match self {
            MenuItem::Action(action) => Some(action.label.as_str()),
            MenuItem::SubMenu(submenu) => Some(submenu.label.as_str()),
            MenuItem::Separator(_) => None,
        }
    }

    /// Checks if the menu item is enabled.
    pub fn is_enabled(&self) -> (r: bool)
        ensures
            r == self.spec_enabled(),
    {
        match self {
            MenuItem::Action(action) => action.enabled,
            MenuItem::SubMenu(submenu) => submenu.enabled,
            MenuItem::Separator(_) => false,
        }
    }

    /// Returns the type of this menu item.
    pub fn item_type(&self) -> (r: MenuItemType)
        ensures
            r == self.spec_item_type(),
    {
        match self {
            MenuItem::Action(_) => MenuItemType::Action,
            MenuItem::Separator(_) => MenuItemType::Separator,
            MenuItem::SubMenu(_) => MenuItemType::SubMenu,
        }
    }

    /// Returns the label of this menu item, if any.
    pub fn label(&self) -> (r: Option<&str>)
        ensures
            opt_str_view(r) == self.spec_label(),
    {
        match self {
            MenuItem::Action(action) => Some(action.label.as_str()),
            MenuItem::SubMenu(submenu) => Some(submenu.label.as_str()),
            MenuItem::Separator(_) => None,
        }
    }

    /// Returns the hotkey of this menu item, if any.
    pub fn hotkey(&self) -> (r: Option<char>)
        ensures
            r == self.spec_hotkey(),
    {
        match self {
            MenuItem::Action(action) => action.hotkey,
            MenuItem::SubMenu(submenu) => submenu.hotkey,
            MenuItem::Separator(_) => None,
        }
    }

    /// Returns whether this menu item is selectable.
    pub fn is_selectable(&self) -> (r: bool)
        ensures
            r == self.spec_selectable(),
    {
        match self {
            MenuItem::Separator(_) => false,
            _ => true,
        }
    }
}

impl SeparatorItem {
    /// Creates a new separator item.
    pub fn new() -> (r: SeparatorItem)
        ensures
            r == SeparatorItem,
    {
        SeparatorItem
    }
}

impl Default for SeparatorItem {
    fn default() -> (r: SeparatorItem)
        ensures
            r == SeparatorItem,
    {
        SeparatorItem::new()
    }
}

/// Whether `b` is a copy of `a`: the same kind and fields, the nested items copies in turn.
pub open spec fn same_item(a: MenuItem, b: MenuItem) -> bool
    decreases a,
{
    match a {
        MenuItem::SubMenu(s) => match b {
            MenuItem::SubMenu(t) => {
                &&& s.label == t.label
                &&& s.enabled == t.enabled
                &&& s.hotkey == t.hotkey
                &&& s.help_context == t.help_context
                &&& s.focused_item == t.focused_item
                &&& s.is_open == t.is_open
                &&& s.items@.len() == t.items@.len()
                &&& forall|i: int|
                    #![trigger s.items@[i]]
                    0 <= i < s.items@.len() ==> same_item(s.items@[i], t.items@[i])
            },
            _ => false,
        },
        _ => a == b,
    }
}

/// Whether `b` is, item by item, a copy of `a`.
pub open spec fn same_items(a: Seq<MenuItem>, b: Seq<MenuItem>) -> bool {
    &&& a.len() == b.len()
    &&& forall|i: int| #![trigger a[i], b[i]] 0 <= i < a.len() ==> same_item(a[i], b[i])
}

/// Two submenus whose fields agree and whose items are copies of each other are copies.
proof fn lemma_same_submenu(s: SubMenuItem, t: SubMenuItem)
    requires
        s.label == t.label,
        s.enabled == t.enabled,
        s.hotkey == t.hotkey,
        s.help_context == t.help_context,
        s.focused_item == t.focused_item,
        s.is_open == t.is_open,
        same_items(s.items@, t.items@),
    ensures
        same_item(MenuItem::SubMenu(s), MenuItem::SubMenu(t)),
{
}

fn clone_opt_string(o: &Option<String>) -> (r: Option<String>)
    ensures
        r == *o,
{
    match o {
        Some(s) => Some(s.clone()),
        None => None,
    }
}

fn clone_item(item: &MenuItem) -> (r: MenuItem)
    ensures
        same_item(*item, r),
    decreases item,
{
    match item {
        MenuItem::Action(a) => MenuItem::Action(clone_action(a)),
        MenuItem::Separator(_) => MenuItem::Separator(SeparatorItem),
        MenuItem::SubMenu(s) => {
            let items = clone_items(&s.items);
            let t = SubMenuItem {
                label: s.label.clone(),
                items,
                enabled: s.enabled,
                hotkey: s.hotkey,
                help_context: clone_opt_string(&s.help_context),
                focused_item: s.focused_item,
                is_open: s.is_open,
            };
            proof {
                lemma_same_submenu(*s, t);
            }
            MenuItem::SubMenu(t)
        },
    }
}

/// Copies a list of menu items, nested submenus included.
pub fn clone_items(items: &Vec<MenuItem>) -> (r: Vec<MenuItem>)
    ensures
        same_items(items@, r@),
    decreases items,
{
    broadcast use vstd::std_specs::vec::axiom_vec_index_decreases;

    let mut r: Vec<MenuItem> = Vec::new();
    let mut i: usize = 0;
    while i < items.len()
        invariant
            i <= items@.len(),
            r@.len() == i,
            forall|j: int| 0 <= j < i ==> #[trigger] same_item(items@[j], r@[j]),
        decreases items.len() - i,
    {
        let c = clone_item(&items[i]);
        r.push(c);
        i = i + 1;
    }
    r
}

impl Clone for MenuItem {
    fn clone(&self) -> (r: MenuItem)
        ensures
            same_item(*self, r),
    {
        clone_item(self)
    }
}

fn clone_action(a: &ActionItem) -> (r: ActionItem)
    ensures
        r == *a,
{
    ActionItem {
        label: a.label.clone(),
        command: a.command.clone(),
        enabled: a.enabled,
        hotkey: a.hotkey,
        shortcut: clone_opt_string(&a.shortcut),
        help_context: clone_opt_string(&a.help_context),
    }
}

impl Clone for ActionItem {
    fn clone(&self) -> (r: ActionItem)
        ensures
            r == *self,
    {
        clone_action(self)
    }
}

impl Clone for SubMenuItem {
    fn clone(&self) -> (r: SubMenuItem)
        ensures
            same_item(MenuItem::SubMenu(*self), MenuItem::SubMenu(r)),
    {
        let t = SubMenuItem {
            label: self.label.clone(),
            items: clone_items(&self.items),
            enabled: self.enabled,
            hotkey: self.hotkey,
            help_context: clone_opt_string(&self.help_context),
            focused_item: self.focused_item,
            is_open: self.is_open,
        };
        proof {
            lemma_same_submenu(*self, t);
        }
        t
    }
}

impl ActionItem {
    /// Whether this is a freshly built, enabled action with the given label, command,
    /// hotkey and shortcut, and no help context.
    pub open spec fn is_fresh(
        self,
        label: Seq<char>,
        command: Seq<char>,
        hotkey: Option<char>,
        shortcut: Option<Seq<char>>,
    ) -> bool {
        &&& self.label@ == label
        &&& self.command@ == command
        &&& self.enabled
        &&& self.hotkey == hotkey
        &&& opt_string_view(self.shortcut) == shortcut
        &&& self.help_context is None
    }

    /// Creates a new action item with the given label and command.
    pub fn new(label: &str, command: &str) -> (r: ActionItem)
        ensures
            r.is_fresh(label@, command@, None, None),
    {
        ActionItem {
            label: label.to_owned(),
            command: Command::new(command),
            enabled: true,
            hotkey: None,
            shortcut: None,
            help_context: None,
        }
    }

    /// Creates a new action item with label, command, and hotkey.
    pub fn with_hotkey(label: &str, command: &str, hotkey: char) -> (r: ActionItem)
        ensures
            r.is_fresh(label@, command@, Some(hotkey), None),
    {
        ActionItem {
            label: label.to_owned(),
            command: Command::new(command),
            enabled: true,
            hotkey: Some(hotkey),
            shortcut: None,
            help_context: None,
        }
    }

    /// Creates a new action item with all properties.
    pub fn with_all(label: &str, command: &str, hotkey: Option<char>, shortcut: Option<&str>) -> (r:
        ActionItem)
        ensures
            r.is_fresh(label@, command@, hotkey, opt_str_view(shortcut)),
    {
        let shortcut = match shortcut {
            Some(s) => Some(s.to_owned()),
            None => None,
        };
        ActionItem {
            label: label.to_owned(),
            command: Command::new(command),
            enabled: true,
            hotkey,
            shortcut,
            help_context: None,
        }
    }

    /// Sets the hotkey for this action item (builder pattern).
    pub fn hotkey(self, hotkey: char) -> (r: ActionItem)
        ensures
            r == (ActionItem { hotkey: Some(hotkey), ..self }),
    {
        let mut s = self;
        s.hotkey = Some(hotkey);
        s
    }

    /// Sets the keyboard shortcut for this action item (builder pattern).
    pub fn shortcut(self, shortcut: &str) -> (r: ActionItem)
        ensures
            r.shortcut matches Some(t) && t@ == shortcut@,
            r == (ActionItem { shortcut: r.shortcut, ..self }),
    {
        let mut s = self;
        s.shortcut = Some(shortcut.to_owned());
        s
    }

    /// Sets the help context for this action item (builder pattern).
    pub fn help_context(self, help_context: &str) -> (r: ActionItem)
        ensures
            r.help_context matches Some(t) && t@ == help_context@,
            r == (ActionItem { help_context: r.help_context, ..self }),
    {
        let mut s = self;
        s.help_context = Some(help_context.to_owned());
        s
    }

    /// Sets the enabled state for this action item (builder pattern).
    pub fn enabled(self, enabled: bool) -> (r: ActionItem)
        ensures
            r == (ActionItem { enabled, ..self }),
    {
        let mut s = self;
        s.enabled = enabled;
        s
    }
}

impl SubMenuItem {
    /// Whether this is a freshly built, enabled, closed and unfocused submenu with the
    /// given label, hotkey and items, and no help context.
    pub open spec fn is_fresh(self, label: Seq<char>, hotkey: Option<char>, items: Seq<MenuItem>) -> bool {
        &&& self.label@ == label
        &&& self.items@ == items
        &&& self.enabled
        &&& self.hotkey == hotkey
        &&& self.help_context is None
        &&& self.focused_item is None
        &&& !self.is_open
    }

    /// Creates a new submenu item with the given label.
    pub fn new(label: &str) -> (r: SubMenuItem)
        ensures
            r.is_fresh(label@, None, Seq::empty()),
    {
        SubMenuItem {
            label: label.to_owned(),
            items: Vec::new(),
            enabled: true,
            hotkey: None,
            help_context: None,
            focused_item: None,
            is_open: false,
        }
    }

    /// Creates a new submenu item with label and hotkey.
    pub fn with_hotkey(label: &str, hotkey: char) -> (r: SubMenuItem)
        ensures
            r.is_fresh(label@, Some(hotkey), Seq::empty()),
    {
        SubMenuItem {
            label: label.to_owned(),
            items: Vec::new(),
            enabled: true,
            hotkey: Some(hotkey),
            help_context: None,
            focused_item: None,
            is_open: false,
        }
    }

    /// Creates a new submenu item with title, hotkey, and items.
    pub fn with_items(label: &str, hotkey: Option<char>, items: Vec<MenuItem>) -> (r: SubMenuItem)
        ensures
            r.is_fresh(label@, hotkey, items@),
            r.items == items,
    {
        SubMenuItem {
            label: label.to_owned(),
            items,
            enabled: true,
            hotkey,
            help_context: None,
            focused_item: None,
            is_open: false,
        }
    }

    /// Sets the hotkey for this submenu item (builder pattern).
    pub fn hotkey(self, hotkey: char) -> (r: SubMenuItem)
        ensures
            r == (SubMenuItem { hotkey: Some(hotkey), ..self }),
    {
        let mut s = self;
        s.hotkey = Some(hotkey);
        s
    }

    /// Adds an item to this submenu (builder pattern).
    pub fn item(self, item: MenuItem) -> (r: SubMenuItem)
        ensures
            r.items@ == self.items@.push(item),
            r == (SubMenuItem { items: r.items, ..self }),
    {
        let mut s = self;
        s.items.push(item);
        s
    }

    /// Sets the help context for this submenu item (builder pattern).
    pub fn help_context(self, help_context: &str) -> (r: SubMenuItem)
        ensures
            r.help_context matches Some(t) && t@ == help_context@,
            r == (SubMenuItem { help_context: r.help_context, ..self }),
    {
        let mut s = self;
        s.help_context = Some(help_context.to_owned());
        s
    }

    /// Sets the enabled state for this submenu item (builder pattern).
    pub fn enabled(self, enabled: bool) -> (r: SubMenuItem)
        ensures
            r == (SubMenuItem { enabled, ..self }),
    {
        let mut s = self;
        s.enabled = enabled;
        s
    }

    /// Add a menu item to this submenu.
    pub fn add_item(&mut self, item: MenuItem)
        ensures
            final(self).items@ == old(self).items@.push(item),
            *final(self) == (SubMenuItem { items: final(self).items, ..*old(self) }),
    {
        self.items.push(item);
    }
}

impl MenuItem {
    /// Creates a new action menu item.
    pub fn new_action(label: &str, command: &str) -> (r: MenuItem)
        ensures
            r matches MenuItem::Action(a) && a.is_fresh(label@, command@, None, None),
    {
        MenuItem::Action(ActionItem::new(label, command))
    }

    /// Creates a new action menu item with hotkey.
    pub fn action_with_hotkey(label: &str, command: &str, hotkey: char) -> (r: MenuItem)
        ensures
            r matches MenuItem::Action(a) && a.is_fresh(label@, command@, Some(hotkey), None),
    {
        MenuItem::Action(ActionItem::with_hotkey(label, command, hotkey))
    }

    /// Creates a new action menu item with all properties.
    pub fn action_with_all(label: &str, command: &str, hotkey: Option<char>, shortcut: Option<&str>) -> (r:
        MenuItem)
        ensures
            r matches MenuItem::Action(a) && a.is_fresh(
                label@,
                command@,
                hotkey,
                opt_str_view(shortcut),
            ),
    {
        MenuItem::Action(ActionItem::with_all(label, command, hotkey, shortcut))
    }

    /// Creates a new separator menu item.
    pub fn separator() -> (r: MenuItem)
        ensures
            r is Separator,
    {
        MenuItem::Separator(SeparatorItem::new())
    }

    /// Creates a new submenu item.
    pub fn new_submenu(label: &str) -> (r: MenuItem)
        ensures
            r matches MenuItem::SubMenu(s) && s.is_fresh(label@, None, Seq::empty()),
    {
        MenuItem::SubMenu(SubMenuItem::new(label))
    }

    /// Creates a new submenu item with hotkey.
    pub fn submenu_with_hotkey(label: &str, hotkey: char) -> (r: MenuItem)
        ensures
            r matches MenuItem::SubMenu(s) && s.is_fresh(label@, Some(hotkey), Seq::empty()),
    {
        MenuItem::SubMenu(SubMenuItem::with_hotkey(label, hotkey))
    }

    /// Creates a new submenu item with all properties.
    pub fn submenu_with_items(label: &str, hotkey: Option<char>, items: Vec<MenuItem>) -> (r: MenuItem)
        ensures
            r matches MenuItem::SubMenu(s) && s.is_fresh(label@, hotkey, items@) && s.items == items,
    {
        MenuItem::SubMenu(SubMenuItem::with_items(label, hotkey, items))
    }

    /// Creates a new action menu item (the older name of `new_action`).
    pub fn action(text: &str, command: &str) -> (r: MenuItem)
        ensures
            r matches MenuItem::Action(a) && a.is_fresh(text@, command@, None, None),
    {
        MenuItem::new_action(text, command)
    }

    /// Creates a new submenu holding the given items.
    pub fn submenu(text: &str, items: Vec<MenuItem>) -> (r: MenuItem)
        ensures
            r matches MenuItem::SubMenu(s) && s.is_fresh(text@, None, items@) && s.items == items,
    {
        MenuItem::SubMenu(SubMenuItem::with_items(text, None, items))
    }

    /// Sets the hotkey of an action or a submenu; a separator is returned unchanged.
    pub fn with_hotkey(self, hotkey: char) -> (r: MenuItem)
        ensures
            r == (match self {
                MenuItem::Action(a) => MenuItem::Action(ActionItem { hotkey: Some(hotkey), ..a }),
                MenuItem::SubMenu(s) => MenuItem::SubMenu(SubMenuItem { hotkey: Some(hotkey), ..s }),
                MenuItem::Separator(_) => self,
            }),
    {
        match self {
            MenuItem::Action(a) => MenuItem::Action(a.hotkey(hotkey)),
            MenuItem::SubMenu(s) => MenuItem::SubMenu(s.hotkey(hotkey)),
            MenuItem::Separator(_) => self,
        }
    }

    /// Sets the shortcut shown for an action; other items are returned unchanged.
    pub fn with_shortcut(self, shortcut: &str) -> (r: MenuItem)
        ensures
            (match self {
                MenuItem::Action(a) => {
                    &&& r matches MenuItem::Action(b)
                    &&& b == (ActionItem { shortcut: b.shortcut, ..a })
                    &&& b.shortcut matches Some(t)
                    &&& t@ == shortcut@
                },
                _ => r == self,
            }),
    {
        match self {
            MenuItem::Action(a) => MenuItem::Action(a.shortcut(shortcut)),
            _ => self,
        }
    }

    /// Sets the help context of an action or a submenu; a separator is returned unchanged.
    pub fn with_help_context(self, help_context: &str) -> (r: MenuItem)
        ensures
            (match self {
                MenuItem::Action(a) => {
                    &&& r matches MenuItem::Action(b)
                    &&& b == (ActionItem { help_context: b.help_context, ..a })
                    &&& b.help_context matches Some(t)
                    &&& t@ == help_context@
                },
                MenuItem::SubMenu(s) => {
                    &&& r matches MenuItem::SubMenu(b)
                    &&& b == (SubMenuItem { help_context: b.help_context, ..s })
                    &&& b.help_context matches Some(t)
                    &&& t@ == help_context@
                },
                MenuItem::Separator(_) => r == self,
            }),
    {
        match self {
            MenuItem::Action(a) => MenuItem::Action(a.help_context(help_context)),
            MenuItem::SubMenu(s) => MenuItem::SubMenu(s.help_context(help_context)),
            MenuItem::Separator(_) => self,
        }
    }

    /// Sets the enabled state of an action or a submenu; a separator is returned unchanged.
    pub fn with_enabled(self, enabled: bool) -> (r: MenuItem)
        ensures
            r == (match self {
                MenuItem::Action(a) => MenuItem::Action(ActionItem { enabled, ..a }),
                MenuItem::SubMenu(s) => MenuItem::SubMenu(SubMenuItem { enabled, ..s }),
                MenuItem::Separator(_) => self,
            }),
    {
        match self {
            MenuItem::Action(a) => MenuItem::Action(a.enabled(enabled)),
            MenuItem::SubMenu(s) => MenuItem::SubMenu(s.enabled(enabled)),
            MenuItem::Separator(_) => self,
        }
    }
}

} // verus!
