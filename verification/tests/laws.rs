use tui_vision::menus::{Menu, MenuBar, MenuItem, MenuItemType, Rect, DrawOp};

#[test]
fn law_next_then_previous_menu_concrete() {
    let mut bar = MenuBar::new();
    for t in ["A", "B", "C", "D"] {
        bar.add_menu(Menu::new(t));
    }
    for start in 0..4 {
        bar.open_menu(start);
        bar.open_next_menu();
        bar.open_previous_menu();
        assert_eq!(bar.opened_menu, Some(start));
        bar.open_previous_menu();
        bar.open_next_menu();
        assert_eq!(bar.opened_menu, Some(start));
    }
}

#[test]
fn law_focus_next_then_previous_concrete() {
    let mut m = Menu::new("M");
    m.add_separator();
    m.add_action("A", "a", None);
    m.add_separator();
    m.add_submenu("S", None);
    m.add_action("B", "b", None);
    for start in [1usize, 3, 4] {
        m.focused_item = Some(start);
        m.focus_next_item();
        m.focus_previous_item();
        assert_eq!(m.focused_item, Some(start));
        m.focus_previous_item();
        m.focus_next_item();
        assert_eq!(m.focused_item, Some(start));
    }
}

#[test]
fn law_focus_lands_on_selectable_concrete() {
    let mut m = Menu::new("M");
    m.add_separator();
    m.add_action("A", "a", None);
    m.add_separator();
    for _ in 0..5 {
        m.focus_next_item();
        let i = m.focused_item.unwrap();
        assert!(m.items[i].is_selectable());
    }
}

#[test]
fn law_selectable_iff_not_separator_concrete() {
    for item in [MenuItem::new_action("A", "a"), MenuItem::separator(), MenuItem::new_submenu("S")] {
        assert_eq!(item.is_selectable(), item.item_type() != MenuItemType::Separator);
        assert_eq!(item.label(), item.text());
    }
}

#[test]
fn law_close_twice_is_close_once_concrete() {
    let inner = tui_vision::menus::SubMenuItem::new("I").item(MenuItem::action("x", "x"));
    let mut outer = tui_vision::menus::SubMenuItem::with_items("O", None, vec![MenuItem::SubMenu(inner)]);
    outer.is_open = true;
    let mut m = Menu::new("M");
    m.add_item(MenuItem::SubMenu(outer));
    m.close_all_submenus();
    let once = m.clone();
    m.close_all_submenus();
    assert_eq!(m, once);
}

#[test]
fn law_menu_bar_draws_only_first_row_concrete() {
    let mut bar = MenuBar::new();
    bar.add_menu(Menu::new("File"));
    bar.add_menu(Menu::new("Edit"));
    for width in 0..20u16 {
        let area = Rect::new(2, 3, width, 5);
        let ops = bar.render_menu_bar(area);
        for op in ops {
            match op {
                DrawOp::Fill { area: a, .. } => {
                    assert_eq!(a.y, 3);
                    assert_eq!(a.height, 1);
                    assert!(a.x >= area.x && a.x + a.width <= area.x + area.width);
                }
                DrawOp::Text { x, y, text, .. } => {
                    assert_eq!(y, 3);
                    assert!(x >= area.x);
                    assert!(x as usize + text.len() <= (area.x + area.width) as usize);
                }
                other => panic!("unexpected {:?}", other),
            }
        }
    }
}

#[test]
fn law_dropdowns_left_to_right_concrete() {
    let mut bar = MenuBar::new();
    for t in ["A", "Longer", "", "Z"] {
        bar.add_menu(Menu::new(t));
    }
    let area = Rect::new(0, 0, 80, 25);
    let xs: Vec<u16> = (0..4).map(|i| bar.calculate_dropdown_area(area, i).x).collect();
    assert_eq!(xs, vec![1, 5, 14, 17]);
}

#[test]
fn law_dropdown_bounds_concrete() {
    let mut bar = MenuBar::new();
    let mut m = Menu::new("M");
    for _ in 0..30 {
        m.add_action("A label that is rather long indeed, more than forty", "x", None);
    }
    bar.add_menu(m);
    let area = Rect::new(0, 2, 80, 10);
    let r = bar.calculate_dropdown_area(area, 0);
    assert_eq!(r.y, 3);
    assert!(r.width <= 40);
    assert_eq!(r.height, 9);
}
