# tui_vision

Menu bars for terminal user interfaces: a menu bar holds menus, a menu holds actions,
separators and nested submenus. The library keeps the state of the bar (which menu is
open, which item has the focus, which submenus are open) and lays out what the bar
draws; the contract of each operation states what it returns or changes.

- `src/command.rs`: command identifiers.
- `src/menus/items.rs`: menu items, their builders and the `MenuItemTrait` trait.
- `src/menus/menu.rs`: menus, focus navigation and the closing of submenus.
- `src/menus/bar.rs`: the menu bar and which menu is open.
- `src/menus/render.rs`: the layout of the bar line, dropdowns and submenus as a list
  of drawing operations.
- `src/menus/laws.rs`: properties that span several operations.
- `app/`: painting the drawing operations into a ratatui buffer, the colour themes, and
  the `menu_bar!`, `menu!` and `item!` macros.
