//! Menu bars, dropdown menus and menu items for terminal user interfaces:
//! the menu model, its keyboard-navigation state machine and the layout of
//! what a menu bar draws.

pub mod command;
pub mod menus;
