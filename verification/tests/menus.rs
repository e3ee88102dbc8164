use tui_vision::menus::{ActionItem, Menu, MenuBar, MenuItem, MenuItemType, SubMenuItem};

fn act(text: &str, command: &str, hotkey: char) -> MenuItem {
    MenuItem::action(text, command).with_hotkey(hotkey)
}

fn act_short(text: &str, command: &str, hotkey: char, shortcut: &str) -> MenuItem {
    MenuItem::action(text, command)
        .with_hotkey(hotkey)
        .with_shortcut(shortcut)
}

fn sep() -> MenuItem {
    MenuItem::separator()
}

fn sample_menus() -> Vec<Menu> {
    let file = Menu::with_hotkey("File", 'F')
        .item(act("New", "file.new", 'N'))
        .item(act_short("Open", "file.open", 'O', "Ctrl+O"))
        .item(sep())
        .item(act_short("Save", "file.save", 'S', "Ctrl+S"))
        .item(act("Save As...", "file.save_as", 'A'))
        .item(sep())
        .item(act_short("Exit", "file.exit", 'x', "Alt+F4"));
    let edit = Menu::with_hotkey("Edit", 'E')
        .item(act_short("Undo", "edit.undo", 'U', "Ctrl+Z"))
        .item(act_short("Redo", "edit.redo", 'R', "Ctrl+Y"))
        .item(sep())
        .item(act_short("Cut", "edit.cut", 't', "Ctrl+X"))
        .item(act_short("Copy", "edit.copy", 'C', "Ctrl+C"))
        .item(act_short("Paste", "edit.paste", 'P', "Ctrl+V"))
        .item(sep())
        .item(
            MenuItem::submenu(
                "Find",
                vec![
                    act_short("Find", "edit.find", 'F', "Ctrl+F"),
                    act("Find Next", "edit.find_next", 'N'),
                    act_short("Replace", "edit.replace", 'R', "Ctrl+H"),
                ],
            )
            .with_hotkey('i'),
        );
    let help = Menu::with_hotkey("Help", 'H')
        .item(act("Help Topics", "help.topics", 'T'))
        .item(sep())
        .item(act("About", "help.about", 'A'));
    vec![file, edit, help]
}

#[test]
fn macros_menu_bar() {
    let mut menu_bar = MenuBar::new();
    for menu in sample_menus() {
        menu_bar.add_menu(menu);
    }

    assert_eq!(menu_bar.menus.len(), 3);
    assert_eq!(menu_bar.menus[0].title, "File");
    assert_eq!(menu_bar.menus[1].title, "Edit");
    assert_eq!(menu_bar.menus[2].title, "Help");
}

#[test]
fn mod_menu_bar() {
    let mut menu_bar = MenuBar::new();
    for built in sample_menus() {
        let mut menu = Menu::with_hotkey(&built.title, built.hotkey.unwrap());
        for item in built.items {
            menu.add_item(item);
        }
        menu_bar.add_menu(menu);
    }

    assert_eq!(menu_bar.menus.len(), 3);
    assert_eq!(menu_bar.menus[0].title, "File");
    assert_eq!(menu_bar.menus[1].title, "Edit");
    assert_eq!(menu_bar.menus[2].title, "Help");
}

#[test]
fn test_menu_hierarchy() {
    let menu_bar = MenuBar::from_menus(vec![
        (
            "File",
            Some('F'),
            vec![
                MenuItem::action("New", "file.new").with_hotkey('N'),
                MenuItem::action("Open", "file.open")
                    .with_hotkey('O')
                    .with_shortcut("Ctrl+O"),
                MenuItem::separator(),
                MenuItem::action("Save", "file.save")
                    .with_hotkey('S')
                    .with_shortcut("Ctrl+S"),
                MenuItem::action("Save As...", "file.save_as").with_hotkey('A'),
                MenuItem::separator(),
                MenuItem::action("Exit", "file.exit")
                    .with_hotkey('x')
                    .with_shortcut("Alt+F4"),
            ],
        ),
        (
            "Edit",
            Some('E'),
            vec![
                MenuItem::action("Undo", "edit.undo")
                    .with_hotkey('U')
                    .with_shortcut("Ctrl+Z"),
                MenuItem::action("Redo", "edit.redo")
                    .with_hotkey('R')
                    .with_shortcut("Ctrl+Y"),
                MenuItem::separator(),
                MenuItem::action("Cut", "edit.cut")
                    .with_hotkey('t')
                    .with_shortcut("Ctrl+X"),
                MenuItem::action("Copy", "edit.copy")
                    .with_hotkey('C')
                    .with_shortcut("Ctrl+C"),
                MenuItem::action("Paste", "edit.paste")
                    .with_hotkey('P')
                    .with_shortcut("Ctrl+V"),
                MenuItem::separator(),
                MenuItem::submenu(
                    "Find",
                    vec![
                        MenuItem::action("Find", "edit.find")
                            .with_hotkey('F')
                            .with_shortcut("Ctrl+F"),
                        MenuItem::action("Find Next", "edit.find_next").with_hotkey('N'),
                        MenuItem::action("Replace", "edit.replace")
                            .with_hotkey('R')
                            .with_shortcut("Ctrl+H"),
                    ],
                )
                .with_hotkey('i'),
            ],
        ),
        (
            "Help",
            Some('H'),
            vec![
                MenuItem::action("Help Topics", "help.topics")
                    .with_hotkey('T')
                    .with_help_context("Display help documentation"),
                MenuItem::separator(),
                MenuItem::action("About", "help.about")
                    .with_hotkey('A')
                    .with_help_context("Show application information"),
            ],
        ),
    ]);

    assert_eq!(menu_bar.menus.len(), 3);
    assert_eq!(menu_bar.menus[0].title, "File");
    assert_eq!(menu_bar.menus[1].title, "Edit");
    assert_eq!(menu_bar.menus[2].title, "Help");

    let mut test_menu_bar = menu_bar.clone();
    test_menu_bar.open_menu(1);
    assert_eq!(test_menu_bar.opened_menu, Some(1));
    assert_eq!(test_menu_bar.opened_menu().unwrap().title, "Edit");

    let edit_menu = &menu_bar.menus[1];
    if let MenuItem::SubMenu(submenu) = &edit_menu.items[7] {
        assert_eq!(submenu.label, "Find");
        assert_eq!(submenu.items.len(), 3);
        if let MenuItem::Action(action) = &submenu.items[0] {
            assert_eq!(action.label, "Find");
            assert_eq!(action.command.as_str(), "edit.find");
        }
    }
}

#[test]
fn test_menu_item_properties() {
    let item = MenuItem::action("Test", "test.command")
        .with_help_context("Test help")
        .with_enabled(false);

    assert_eq!(item.text(), Some("Test"));
    assert!(!item.is_enabled());

    let separator = MenuItem::separator();
    assert_eq!(separator.text(), None);
    assert!(!separator.is_enabled());
}

#[test]
fn test_hotkey_functionality() {
    let file_menu = Menu::with_hotkey("File", 'F');
    assert_eq!(file_menu.hotkey, Some('F'));

    let edit_menu = Menu::with_hotkey("Edit", 'E');
    assert_eq!(edit_menu.hotkey, Some('E'));

    let new_item = MenuItem::action("New", "file.new").with_hotkey('N');
    if let MenuItem::Action(action) = new_item {
        assert_eq!(action.hotkey, Some('N'));
    } else {
        panic!("Expected Action menu item");
    }

    let submenu = MenuItem::submenu(
        "Recent Files",
        vec![
            MenuItem::action("Document1.txt", "file.open_recent").with_hotkey('1'),
            MenuItem::action("Document2.txt", "file.open_recent").with_hotkey('2'),
        ],
    )
    .with_hotkey('R');

    if let MenuItem::SubMenu(submenu_data) = submenu {
        assert_eq!(submenu_data.hotkey, Some('R'));

        if let MenuItem::Action(action) = &submenu_data.items[0] {
            assert_eq!(action.hotkey, Some('1'));
        }

        if let MenuItem::Action(action) = &submenu_data.items[1] {
            assert_eq!(action.hotkey, Some('2'));
        }
    } else {
        panic!("Expected SubMenu item");
    }

    let save_item = MenuItem::action("Save", "file.save")
        .with_hotkey('S')
        .with_shortcut("Ctrl+S");

    if let MenuItem::Action(action) = save_item {
        assert_eq!(action.hotkey, Some('S'));
        assert_eq!(action.shortcut, Some("Ctrl+S".to_string()));
    } else {
        panic!("Expected Action menu item");
    }
}

#[test]
fn test_hotkey_case_sensitivity() {
    let lower_case = MenuItem::action("lowercase", "test.lower").with_hotkey('l');
    let upper_case = MenuItem::action("UPPERCASE", "test.upper").with_hotkey('L');

    if let MenuItem::Action(action) = lower_case {
        assert_eq!(action.hotkey, Some('l'));
    }

    if let MenuItem::Action(action) = upper_case {
        assert_eq!(action.hotkey, Some('L'));
    }

    let menu_lower = Menu::with_hotkey("test", 't');
    let menu_upper = Menu::with_hotkey("Test", 'T');

    assert_eq!(menu_lower.hotkey, Some('t'));
    assert_eq!(menu_upper.hotkey, Some('T'));
}

#[test]
fn test_new_constructor_api() {
    let menu_bar = MenuBar::new();
    assert_eq!(menu_bar.menus.len(), 0);

    let file_menu = Menu::new("File")
        .hotkey('F')
        .item(MenuItem::new_action("New", "file.new"))
        .item(MenuItem::separator())
        .item(MenuItem::new_action("Exit", "file.exit"));

    assert_eq!(file_menu.title, "File");
    assert_eq!(file_menu.hotkey, Some('F'));
    assert_eq!(file_menu.items.len(), 3);

    let action = ActionItem::new("Save", "file.save")
        .hotkey('S')
        .shortcut("Ctrl+S");

    assert_eq!(action.label, "Save");
    assert_eq!(action.hotkey, Some('S'));
    assert_eq!(action.shortcut, Some("Ctrl+S".to_string()));

    let submenu = SubMenuItem::new("Recent")
        .hotkey('R')
        .item(MenuItem::new_action("File1.txt", "file.open"));

    assert_eq!(submenu.label, "Recent");
    assert_eq!(submenu.hotkey, Some('R'));
    assert_eq!(submenu.items.len(), 1);
}

#[test]
fn test_trait_functionality() {
    let items: Vec<MenuItem> = vec![
        MenuItem::new_action("New", "file.new"),
        MenuItem::separator(),
        MenuItem::new_submenu("Recent"),
    ];

    assert_eq!(items[0].item_type(), MenuItemType::Action);
    assert_eq!(items[1].item_type(), MenuItemType::Separator);
    assert_eq!(items[2].item_type(), MenuItemType::SubMenu);

    assert_eq!(items[0].label(), Some("New"));
    assert_eq!(items[1].label(), None);
    assert_eq!(items[2].label(), Some("Recent"));

    assert!(items[0].is_selectable());
    assert!(!items[1].is_selectable());
    assert!(items[2].is_selectable());
}

#[test]
fn menu_item_display() {
    let action_item = MenuItem::action("New", "file.new");
    let separator_item = MenuItem::separator();

    assert_eq!(action_item.label(), Some("New"));
    assert!(action_item.is_selectable());

    assert_eq!(separator_item.label(), None);
    assert!(!separator_item.is_selectable());
}
