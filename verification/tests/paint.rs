//! The buffer-level scenarios of the menu bar, painted from the layout with the classic
//! theme the way a widget paints it.

use ratatui_core::buffer::Buffer;
use ratatui_core::layout::Rect as CellRect;
use ratatui_core::style::{Color, Modifier, Style};
use ratatui_core::widgets::Widget;
use ratatui_widgets::block::Block;
use tui_vision::menus::render::plan_clear;
use tui_vision::menus::{DrawOp, Menu, MenuBar, MenuItem, Rect, StyleRole};

struct Theme {
    menu_bar: Style,
    menu_bar_focused: Style,
    dropdown: Style,
    dropdown_border: Style,
    item: Style,
    item_focused: Style,
    item_disabled: Style,
    separator: Style,
}

fn classic() -> Theme {
    Theme {
        menu_bar: Style::default().bg(Color::Cyan).fg(Color::Black),
        menu_bar_focused: Style::default().bg(Color::Blue).fg(Color::White),
        dropdown: Style::default().bg(Color::Blue).fg(Color::White),
        dropdown_border: Style::default().bg(Color::Blue).fg(Color::White),
        item: Style::default().bg(Color::Blue).fg(Color::White),
        item_focused: Style::default().bg(Color::White).fg(Color::Black),
        item_disabled: Style::default().bg(Color::Blue).fg(Color::DarkGray),
        separator: Style::default().bg(Color::Blue).fg(Color::White),
    }
}

fn style_for(t: &Theme, role: StyleRole) -> Style {
    match role {
        StyleRole::MenuBar => t.menu_bar,
        StyleRole::MenuBarFocused => t.menu_bar_focused,
        StyleRole::Dropdown => t.dropdown,
        StyleRole::DropdownBorder => t.dropdown_border,
        StyleRole::Item => t.item,
        StyleRole::ItemFocused => t.item_focused,
        StyleRole::ItemDisabled => t.item_disabled,
        StyleRole::Separator => t.separator,
        StyleRole::SubmenuIndicator => t.dropdown,
    }
}

fn cells(r: Rect) -> CellRect {
    CellRect { x: r.x, y: r.y, width: r.width, height: r.height }
}

fn lib_rect(r: CellRect) -> Rect {
    Rect { x: r.x, y: r.y, width: r.width, height: r.height }
}

fn paint(ops: &[DrawOp], t: &Theme, buf: &mut Buffer) {
    for op in ops {
        match op {
            DrawOp::Fill { area, role } => {
                for y in area.y..area.y + area.height {
                    for x in area.x..area.x + area.width {
                        buf.set_string(x, y, " ", style_for(t, *role));
                    }
                }
            }
            DrawOp::FillRow { x, y, width, role } => {
                for i in 0..*width {
                    buf.set_string(x + i, *y, " ", style_for(t, *role));
                }
            }
            DrawOp::Text { x, y, text, role, underlined } => {
                let mut style = style_for(t, *role);
                if *underlined {
                    style = style.add_modifier(Modifier::UNDERLINED);
                }
                buf.set_string(*x, *y, text, style);
            }
            DrawOp::Clear { area } => {
                let plan = plan_clear(*area, lib_rect(*buf.area()));
                for &y in &plan.rows {
                    let symbol = match plan.left_column {
                        Some(lx) => buf[(lx, y)].symbol().to_string(),
                        None => String::new(),
                    };
                    for (x, y) in plan.row_resets(y, &symbol) {
                        buf[(x, y)].reset();
                    }
                }
            }
            DrawOp::Border { area } => {
                Block::bordered()
                    .border_style(t.dropdown_border)
                    .style(t.dropdown)
                    .render(cells(*area), buf);
            }
            DrawOp::SeparatorLine { x, y, width } => {
                buf.set_string(*x, *y, "├", t.separator);
                for cx in x + 1..x + width - 1 {
                    buf.set_string(cx, *y, "─", t.separator);
                }
                buf.set_string(x + width - 1, *y, "┤", t.separator);
            }
        }
    }
}

fn draw(bar: &MenuBar, area: CellRect, buf: &mut Buffer) {
    let ops = bar.render(lib_rect(area)).unwrap();
    paint(&ops, &classic(), buf);
}

fn file_edit() -> MenuBar {
    let mut bar = MenuBar::new();
    bar.add_menu(Menu::with_hotkey("File", 'F'));
    bar.add_menu(Menu::with_hotkey("Edit", 'E'));
    bar
}

fn action(text: &str, command: &str) -> MenuItem {
    MenuItem::action(text, command)
}

#[test]
fn empty_menu_bar_rendering() {
    let menu_bar = MenuBar::new();
    let area = CellRect::new(0, 0, 20, 1);
    let mut buffer = Buffer::empty(area);

    let menu_bar_style = classic().menu_bar;
    draw(&menu_bar, area, &mut buffer);

    let mut expected = Buffer::with_lines(["                    "]);
    for x in 0..20 {
        expected[(x, 0)].set_style(menu_bar_style);
    }
    assert_eq!(buffer, expected);
}

#[test]
fn menu_bar_with_menus_rendering() {
    let menu_bar = file_edit();
    let area = CellRect::new(0, 0, 15, 1);
    let mut buffer = Buffer::empty(area);

    let menu_bar_style = classic().menu_bar;
    draw(&menu_bar, area, &mut buffer);

    let mut expected = Buffer::with_lines(["  File   Edit  "]);
    for x in 0..15 {
        expected[(x, 0)].set_style(menu_bar_style);
    }
    assert_eq!(buffer, expected);
}

#[test]
fn menu_bar_with_opened_dropdown() {
    let mut menu_bar = MenuBar::new();
    let file = Menu::with_hotkey("File", 'F')
        .item(action("New", "file.new"))
        .item(action("Open", "file.open"))
        .item(MenuItem::separator())
        .item(action("Save", "file.save"))
        .item(action("Exit", "file.exit"));
    menu_bar.add_menu(file);
    menu_bar.add_menu(Menu::with_hotkey("Edit", 'E'));
    menu_bar.open_menu(0);

    let area = CellRect::new(0, 0, 20, 8);
    let mut buffer = Buffer::empty(area);
    draw(&menu_bar, area, &mut buffer);

    let mut expected = Buffer::with_lines([
        "  File   Edit       ",
        " ┌──────┐           ",
        " │New   │           ",
        " │Open  │           ",
        " ├──────┤           ",
        " │Save  │           ",
        " │Exit  │           ",
        " └──────┘           ",
    ]);

    buffer.set_style(area, Style::reset());
    expected.set_style(area, Style::reset());
    assert_eq!(buffer, expected);
}

#[test]
fn clear_area_functionality() {
    let area = CellRect::new(0, 0, 5, 3);
    let mut buffer = Buffer::empty(area);
    let style = Style::default().bg(Color::Red).fg(Color::White);

    let initial_content = buffer[(0, 0)].symbol();
    assert_eq!(initial_content, " ");

    let mut theme = classic();
    theme.menu_bar = style;
    paint(&[DrawOp::Fill { area: lib_rect(area), role: StyleRole::MenuBar }], &theme, &mut buffer);

    for y in 0..3 {
        for x in 0..5 {
            let cell = &buffer[(x, y)];
            assert_eq!(cell.symbol(), " ");
            assert_eq!(cell.bg, Color::Red);
            assert_eq!(cell.fg, Color::White);
        }
    }
}

#[test]
fn menu_bar_only_affects_first_line() {
    let menu_bar = file_edit();
    let area = CellRect::new(0, 0, 20, 5);
    let mut buffer = Buffer::empty(area);

    let existing_style = Style::default().bg(Color::Blue).fg(Color::Yellow);
    for y in 0..5 {
        for x in 0..20 {
            buffer.set_string(x, y, "X", existing_style);
        }
    }

    draw(&menu_bar, area, &mut buffer);

    for x in 0..20 {
        let cell = &buffer[(x, 0)];
        assert_ne!(cell.symbol(), "X");
    }
    for y in 1..5 {
        for x in 0..20 {
            let cell = &buffer[(x, y)];
            assert_eq!(cell.symbol(), "X");
            assert_eq!(cell.bg, Color::Blue);
            assert_eq!(cell.fg, Color::Yellow);
        }
    }
}

#[test]
fn dropdown_renders_on_top_of_content() {
    let mut menu_bar = MenuBar::new();
    menu_bar.add_menu(
        Menu::with_hotkey("File", 'F')
            .item(action("New", "file.new"))
            .item(action("Open", "file.open")),
    );
    menu_bar.open_menu(0);

    let area = CellRect::new(0, 0, 15, 6);
    let mut buffer = Buffer::empty(area);
    let bg_style = Style::default().bg(Color::Red).fg(Color::White);
    for y in 0..6 {
        for x in 0..15 {
            buffer.set_string(x, y, "Z", bg_style);
        }
    }

    draw(&menu_bar, area, &mut buffer);

    for x in 0..15 {
        let cell = &buffer[(x, 0)];
        assert_ne!(cell.symbol(), "Z");
    }
    for y in 1..4 {
        for x in 1..8 {
            let cell = &buffer[(x, y)];
            assert_ne!(cell.symbol(), "Z");
        }
    }
    for x in 10..15 {
        for y in 1..6 {
            let cell = &buffer[(x, y)];
            assert_eq!(cell.symbol(), "Z");
            assert_eq!(cell.bg, Color::Red);
        }
    }
}

#[test]
fn separator_styling_test() {
    let mut menu_bar = MenuBar::new();
    menu_bar.add_menu(
        Menu::with_hotkey("Edit", 'E')
            .item(action("Cut", "edit.cut"))
            .item(MenuItem::separator())
            .item(action("Paste", "edit.paste")),
    );
    menu_bar.open_menu(0);

    let area = CellRect::new(0, 0, 20, 8);
    let mut buffer = Buffer::empty(area);
    draw(&menu_bar, area, &mut buffer);

    let separator_y = 3;
    let mut dropdown_x = 0;
    let mut dropdown_width = 0;
    for x in 0..20 {
        if buffer[(x, 1)].symbol() == "┌" {
            dropdown_x = x;
            break;
        }
    }
    for x in dropdown_x + 1..20 {
        if buffer[(x, 1)].symbol() == "┐" {
            dropdown_width = x - dropdown_x + 1;
            break;
        }
    }

    let left_cell = &buffer[(dropdown_x, separator_y)];
    assert_eq!(left_cell.symbol(), "├");
    assert_eq!(left_cell.bg, Color::Blue);
    assert_eq!(left_cell.fg, Color::White);

    let middle_cell = &buffer[(dropdown_x + 1, separator_y)];
    assert_eq!(middle_cell.symbol(), "─");
    assert_eq!(middle_cell.bg, Color::Blue);
    assert_eq!(middle_cell.fg, Color::White);

    let right_cell = &buffer[(dropdown_x + dropdown_width - 1, separator_y)];
    assert_eq!(right_cell.symbol(), "┤");
    assert_eq!(right_cell.bg, Color::Blue);
    assert_eq!(right_cell.fg, Color::White);
}

#[test]
fn hotkey_underlining_test() {
    let mut menu_bar = MenuBar::new();
    menu_bar.add_menu(
        Menu::with_hotkey("File", 'F')
            .item(action("New File", "file.new").with_hotkey('N'))
            .item(action("Open", "file.open").with_hotkey('O')),
    );
    menu_bar.open_menu(0);

    let area = CellRect::new(0, 0, 20, 6);
    let mut buffer = Buffer::empty(area);
    draw(&menu_bar, area, &mut buffer);

    let mut found_underlined_n = false;
    for y in 0..6 {
        for x in 0..20 {
            let cell = &buffer[(x, y)];
            if cell.symbol() == "N" && cell.modifier.contains(Modifier::UNDERLINED) {
                found_underlined_n = true;
                break;
            }
        }
    }
    assert!(found_underlined_n, "Expected to find underlined 'N' in 'New File'");

    let mut found_underlined_o = false;
    for y in 0..6 {
        for x in 0..20 {
            let cell = &buffer[(x, y)];
            if cell.symbol() == "O" && cell.modifier.contains(Modifier::UNDERLINED) {
                found_underlined_o = true;
                break;
            }
        }
    }
    assert!(found_underlined_o, "Expected to find underlined 'O' in 'Open'");
}

#[test]
fn selection_visibility_test() {
    let mut menu_bar = MenuBar::new();
    menu_bar.add_menu(
        Menu::with_hotkey("File", 'F')
            .item(action("New", "file.new"))
            .item(action("Open", "file.open")),
    );
    menu_bar.open_menu(0);
    if let Some(menu) = menu_bar.menus.get_mut(0) {
        menu.focused_item = Some(0);
    }

    let area = CellRect::new(0, 0, 15, 6);
    let mut buffer = Buffer::empty(area);
    draw(&menu_bar, area, &mut buffer);

    let mut found_white_bg = false;
    for y in 0..6 {
        for x in 0..15 {
            let cell = &buffer[(x, y)];
            if cell.bg == Color::White && cell.symbol() != " " {
                found_white_bg = true;
                break;
            }
        }
    }
    assert!(found_white_bg, "Expected to find white background for focused item");

    let mut found_blue_bg = false;
    for y in 0..6 {
        for x in 0..15 {
            let cell = &buffer[(x, y)];
            if cell.bg == Color::Blue {
                found_blue_bg = true;
                break;
            }
        }
    }
    assert!(found_blue_bg, "Expected to find blue background for non-focused areas");
}

#[test]
fn submenu_rendering_test() {
    let mut menu_bar = MenuBar::new();
    menu_bar.add_menu(
        Menu::with_hotkey("View", 'V').item(
            MenuItem::submenu(
                "Theme",
                vec![
                    action("Light", "light").with_hotkey('L'),
                    action("Dark", "dark").with_hotkey('D'),
                ],
            )
            .with_hotkey('T'),
        ),
    );

    menu_bar.open_menu(0);
    if let Some(menu) = menu_bar.opened_menu_mut() {
        menu.focused_item = Some(0);
        if let Some(MenuItem::SubMenu(submenu)) = menu.items.get_mut(0) {
            submenu.is_open = true;
            submenu.focused_item = Some(0);
        }
    }

    let mut buffer = Buffer::empty(CellRect::new(0, 0, 40, 10));
    draw(&menu_bar, CellRect::new(0, 0, 40, 10), &mut buffer);

    let content = buffer.content();
    let rendered = content.iter().map(|cell| cell.symbol()).collect::<String>();

    assert!(rendered.contains("Light"), "Should contain 'Light' theme option");
    assert!(rendered.contains("Dark"), "Should contain 'Dark' theme option");
}

#[test]
fn wide_character_left_of_a_dropdown_is_cleared() {
    let mut menu_bar = MenuBar::new();
    menu_bar.add_menu(Menu::new("M").item(action("A", "a")));
    menu_bar.open_menu(0);
    let area = CellRect::new(0, 0, 12, 5);
    let mut buffer = Buffer::empty(area);
    // A wide character whose second half lies under the dropdown's left border.
    buffer.set_string(0, 2, "\u{4e16}", Style::default());
    draw(&menu_bar, area, &mut buffer);
    assert_eq!(buffer[(0, 2)].symbol(), " ");
}
