//! Menu bar, menus and menu items.

mod bar;
mod items;
pub mod laws;
pub mod render;
mod menu;

pub use self::items::{
    clone_items, opt_str_view, opt_string_view, same_item, same_items, ActionItem, MenuItem,
    MenuItemAlias, MenuItemTrait, MenuItemType,
    SeparatorItem, SubMenuItem,
};
pub use self::menu::{
    closed_item, closed_items, closed_menu, first_selectable_in, fully_closed, is_first_selectable,
    is_focus_next, is_focus_previous, is_last_selectable, is_next_selectable,
    is_previous_selectable, last_selectable_in, no_selectable_in, Menu,
};
pub use self::bar::{
    menus_after_close, menus_after_open, next_menu_index, opened_at, previous_menu_index,
    same_menu, MenuBar,
};
pub use self::render::{DrawOp, OpView, Rect, StyleRole};
