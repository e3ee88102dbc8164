use tui_vision::command::Command;
use tui_vision::menus::{
    ActionItem, Menu, MenuBar, MenuItem, MenuItemTrait, MenuItemType, SeparatorItem, SubMenuItem,
};

fn nested_menu() -> Menu {
    let inner = SubMenuItem::new("Inner").item(MenuItem::action("Deep", "deep"));
    let mut outer = SubMenuItem::with_items("Outer", Some('O'), vec![MenuItem::SubMenu(inner)]);
    outer.is_open = true;
    outer.focused_item = Some(0);
    if let MenuItem::SubMenu(s) = &mut outer.items[0] {
        s.is_open = true;
        s.focused_item = Some(0);
    }
    let mut menu = Menu::new("View");
    menu.add_item(MenuItem::SubMenu(outer));
    menu.add_separator();
    menu.add_action("Zoom", "view.zoom", Some('Z'));
    menu.focused_item = Some(0);
    menu
}

fn assert_fully_closed(items: &[MenuItem]) {
    for item in items {
        if let MenuItem::SubMenu(s) = item {
            assert!(!s.is_open);
            assert_eq!(s.focused_item, None);
            assert_fully_closed(&s.items);
        }
    }
}

#[test]
fn command_round_trip() {
    let c = Command::new("file.save");
    assert_eq!(c.as_str(), "file.save");
    assert_eq!(c.clone(), c);
}

#[test]
fn action_item_builders() {
    let a = ActionItem::with_all("Save", "file.save", Some('S'), Some("Ctrl+S"));
    assert_eq!(a.label, "Save");
    assert_eq!(a.command.as_str(), "file.save");
    assert!(a.enabled);
    assert_eq!(a.hotkey, Some('S'));
    assert_eq!(a.shortcut, Some("Ctrl+S".to_string()));
    assert_eq!(a.help_context, None);

    let b = ActionItem::with_hotkey("Open", "file.open", 'O')
        .help_context("Opens a file")
        .enabled(false);
    assert_eq!(b.hotkey, Some('O'));
    assert_eq!(b.help_context, Some("Opens a file".to_string()));
    assert!(!b.enabled);
    assert_eq!(MenuItemTrait::help_context(&b), Some("Opens a file"));
    assert_eq!(MenuItemTrait::label(&b), Some("Open"));
    assert_eq!(MenuItemTrait::item_type(&b), MenuItemType::Action);
    assert!(MenuItemTrait::is_selectable(&b));
}

#[test]
fn menu_item_builders() {
    match MenuItem::action_with_all("Print", "file.print", None, Some("Ctrl+P")) {
        MenuItem::Action(a) => {
            assert_eq!(a.shortcut, Some("Ctrl+P".to_string()));
            assert_eq!(a.hotkey, None);
        }
        _ => panic!("expected an action"),
    }
    match MenuItem::action_with_hotkey("Quit", "app.quit", 'Q') {
        MenuItem::Action(a) => assert_eq!(a.hotkey, Some('Q')),
        _ => panic!("expected an action"),
    }
    match MenuItem::submenu_with_hotkey("Recent", 'R') {
        MenuItem::SubMenu(s) => {
            assert_eq!(s.hotkey, Some('R'));
            assert!(s.items.is_empty());
            assert!(!s.is_open);
        }
        _ => panic!("expected a submenu"),
    }
    match MenuItem::submenu_with_items("More", Some('M'), vec![MenuItem::separator()]) {
        MenuItem::SubMenu(s) => assert_eq!(s.items.len(), 1),
        _ => panic!("expected a submenu"),
    }
    // Builders that do not apply to a separator leave it unchanged.
    let sep = MenuItem::separator()
        .with_hotkey('x')
        .with_shortcut("Ctrl+X")
        .with_help_context("none")
        .with_enabled(true);
    assert_eq!(sep, MenuItem::separator());
    assert!(!sep.is_enabled());
    assert_eq!(sep.hotkey(), None);
    // A shortcut applies to actions only.
    let sub = MenuItem::new_submenu("S").with_shortcut("Ctrl+S");
    assert_eq!(sub, MenuItem::new_submenu("S"));
    let help = MenuItem::new_submenu("S").with_help_context("Help");
    match help {
        MenuItem::SubMenu(s) => assert_eq!(s.help_context, Some("Help".to_string())),
        _ => panic!("expected a submenu"),
    }
}

#[test]
fn separator_item_trait() {
    let mut s = SeparatorItem::new();
    assert_eq!(s, SeparatorItem::default());
    s.set_enabled(true);
    assert!(!MenuItemTrait::is_enabled(&s));
    assert!(!MenuItemTrait::is_selectable(&s));
    assert_eq!(MenuItemTrait::label(&s), None);
    assert_eq!(MenuItemTrait::hotkey(&s), None);
    assert_eq!(MenuItemTrait::item_type(&s), MenuItemType::Separator);
}

#[test]
fn submenu_item_trait_and_builders() {
    let mut s = SubMenuItem::with_hotkey("Find", 'F').help_context("Search").enabled(false);
    s.add_item(MenuItem::action("Next", "find.next"));
    assert_eq!(s.items.len(), 1);
    assert!(!MenuItemTrait::is_enabled(&s));
    s.set_enabled(true);
    assert!(MenuItemTrait::is_enabled(&s));
    assert_eq!(MenuItemTrait::hotkey(&s), Some('F'));
    assert_eq!(MenuItemTrait::help_context(&s), Some("Search"));
    assert_eq!(MenuItemTrait::item_type(&s), MenuItemType::SubMenu);
    let copy = s.clone();
    assert_eq!(copy, s);
}

#[test]
fn menu_builders() {
    let mut m = Menu::with_items("Edit", Some('E'), vec![MenuItem::action("Cut", "edit.cut")]);
    m.add_action("Copy", "edit.copy", Some('C'));
    m.add_separator();
    m.add_submenu("Find", Some('F'));
    let m = m.items(vec![MenuItem::action("Paste", "edit.paste")]);
    assert_eq!(m.items.len(), 5);
    assert_eq!(m.items[1].hotkey(), Some('C'));
    assert_eq!(m.items[2].item_type(), MenuItemType::Separator);
    assert_eq!(m.items[3].label(), Some("Find"));
    assert_eq!(m.items[4].label(), Some("Paste"));
    let mut m = m;
    m.set_enabled(false);
    assert!(!m.enabled);
}

#[test]
fn find_selectable_items() {
    let mut m = Menu::new("M");
    m.add_separator();
    m.add_action("A", "a", None);
    m.add_separator();
    m.add_action("B", "b", None);
    m.add_separator();
    assert_eq!(m.find_first_selectable_item(), Some(1));
    assert_eq!(m.find_last_selectable_item(), Some(3));
    assert_eq!(m.find_next_selectable_item(1), Some(3));
    assert_eq!(m.find_next_selectable_item(3), Some(1));
    assert_eq!(m.find_next_selectable_item(40), Some(1));
    assert_eq!(m.find_previous_selectable_item(3), Some(1));
    assert_eq!(m.find_previous_selectable_item(1), Some(3));
    assert_eq!(m.find_previous_selectable_item(40), Some(3));

    let mut only_separators = Menu::new("S");
    only_separators.add_separator();
    assert_eq!(only_separators.find_first_selectable_item(), None);
    assert_eq!(only_separators.find_next_selectable_item(0), None);
    only_separators.focus_next_item();
    assert_eq!(only_separators.focused_item, None);
}

#[test]
fn focus_navigation() {
    let mut m = Menu::new("M");
    m.add_action("A", "a", None);
    m.add_separator();
    m.add_action("B", "b", None);
    assert_eq!(m.get_focused_item(), None);
    m.focus_next_item();
    assert_eq!(m.focused_item, Some(0));
    m.focus_next_item();
    assert_eq!(m.focused_item, Some(2));
    assert_eq!(m.get_focused_item().unwrap().label(), Some("B"));
    m.focus_next_item();
    assert_eq!(m.focused_item, Some(0));
    m.focus_previous_item();
    assert_eq!(m.focused_item, Some(2));

    let mut fresh = Menu::new("F");
    fresh.add_action("A", "a", None);
    fresh.add_action("B", "b", None);
    fresh.focus_previous_item();
    assert_eq!(fresh.focused_item, Some(1));

    m.focused_item = Some(9);
    assert_eq!(m.get_focused_item(), None);
}

#[test]
fn close_all_submenus_closes_every_level() {
    let mut menu = nested_menu();
    menu.close_all_submenus();
    assert_fully_closed(&menu.items);
    assert_eq!(menu.items.len(), 3);
    assert_eq!(menu.focused_item, Some(0));
}

#[test]
fn open_and_close_menus() {
    let mut bar = MenuBar::with_menus(vec![nested_menu(), Menu::new("Help")]);
    assert!(!bar.has_open_menu());
    assert!(bar.opened_menu().is_none());

    bar.open_menu(0);
    assert_eq!(bar.opened_menu, Some(0));
    assert_eq!(bar.menus[0].focused_item, None);
    // The submenus of the menu just opened are left as they were.
    if let MenuItem::SubMenu(s) = &bar.menus[0].items[0] {
        assert!(s.is_open);
    }

    bar.open_menu(1);
    assert_eq!(bar.opened_menu, Some(1));
    assert_fully_closed(&bar.menus[0].items);

    bar.open_menu(7);
    assert_eq!(bar.opened_menu, Some(1));

    bar.close_menu();
    assert!(!bar.has_open_menu());
}

#[test]
fn open_next_and_previous_menus() {
    let mut bar = MenuBar::new();
    bar.open_next_menu();
    bar.open_previous_menu();
    assert_eq!(bar.opened_menu, None);

    bar.add_menu(Menu::new("A"));
    bar.add_menu(Menu::new("B"));
    bar.add_menu(Menu::new("C"));
    bar.open_next_menu();
    assert_eq!(bar.opened_menu, Some(0));
    bar.open_previous_menu();
    assert_eq!(bar.opened_menu, Some(2));
    bar.open_next_menu();
    assert_eq!(bar.opened_menu, Some(0));
    bar.close_menu();
    bar.open_previous_menu();
    assert_eq!(bar.opened_menu, Some(2));
}

#[test]
fn opened_menu_mut_changes_the_open_menu() {
    let mut bar = MenuBar::default();
    bar.add_menu(Menu::new("A"));
    assert!(bar.opened_menu_mut().is_none());
    bar.open_menu(0);
    bar.opened_menu_mut().unwrap().add_action("X", "x", None);
    assert_eq!(bar.menus[0].items.len(), 1);
    bar.opened_menu = Some(3);
    assert!(bar.opened_menu_mut().is_none());
}

#[test]
fn command_conversions() {
    let from_str_slice = Command::from("edit.copy");
    let from_string = Command::from(String::from("edit.copy"));
    let parsed: Command = "edit.copy".parse().unwrap();
    assert_eq!(from_str_slice, from_string);
    assert_eq!(parsed, from_string);
    assert_eq!(parsed.as_str(), "edit.copy");
    assert_eq!(Command::new("file.open").to_string(), "file.open");
    assert_eq!(Command::from("").to_string(), "");
}
