//! Properties that hold across the operations of menus and menu bars.

use vstd::prelude::*;

use super::bar::{next_menu_index, previous_menu_index, same_menu};
use super::items::{same_item, ActionItem, MenuItem, MenuItemType, SubMenuItem};
use super::menu::{
    closed_item, closed_items, closed_menu, fully_closed, is_focus_next, is_focus_previous, is_next_selectable,
    is_previous_selectable, no_selectable_in, Menu,
};
use super::bar::MenuBar;
use super::render::{
    action_line_ok, action_line_ops, ascii_hotkey_pos, ascii_label, bar_fits, bar_ops, bar_x,
    bordered_inner_spec, content_cells, draws_within_first_row, dropdown_area_ok,
    dropdown_area_spec, dropdown_ok, dropdown_ops, dropdown_x, first_ascii_match, hotkey_pos,
    is_underlined, item_width, label_end, label_ok, label_ops, max_cell, menu_row_ops,
    menu_rows_ops, min_int, no_underline, render_ops, rows_drawn, submenu_area_ok,
    submenu_area_spec, submenu_line_ok, submenu_line_ops, title_cells, title_text,
    titles_within_cell_range, underlined_once_at, widest_item, OpView, Rect, StyleRole,
};
use vstd::utf8::encode_utf8;

verus! {

/// A menu item is selectable exactly when its type is not `Separator`.
pub proof fn law_selectable_iff_not_separator(item: MenuItem)
    ensures
        item.spec_selectable() == (item.spec_item_type() != MenuItemType::Separator),
{
}

/// A separator has no label and no hotkey, and is never enabled.
pub proof fn law_separator_is_inert(item: MenuItem)
    requires
        item is Separator,
    ensures
        item.spec_label() is None,
        item.spec_hotkey() is None,
        !item.spec_enabled(),
        !item.spec_selectable(),
{
}

/// Opening the next menu and then the previous one comes back to the menu that was open.
pub proof fn law_next_then_previous_menu(current: usize, len: usize)
    requires
        current < len,
    ensures
        previous_menu_index(Some(next_menu_index(Some(current), len as nat) as usize), len as nat) == current,
{
    if current + 1 < len {
        assert((current + 1) % (len as int) == current + 1) by (nonlinear_arith)
            requires
                0 <= current + 1 < len,
        ;
    } else {
        assert((current + 1) % (len as int) == 0) by (nonlinear_arith)
            requires
                current + 1 == len,
                len > 0,
        ;
    }
}

/// Opening the previous menu and then the next one comes back to the menu that was open.
pub proof fn law_previous_then_next_menu(current: usize, len: usize)
    requires
        current < len,
    ensures
        next_menu_index(Some(previous_menu_index(Some(current), len as nat) as usize), len as nat) == current,
{
    let p = previous_menu_index(Some(current), len as nat);
    if current == 0 {
        assert((p + 1) % (len as int) == 0) by (nonlinear_arith)
            requires
                p + 1 == len,
                len > 0,
        ;
    } else {
        assert((p + 1) % (len as int) == current) by (nonlinear_arith)
            requires
                p + 1 == current,
                current < len,
                0 <= current,
        ;
    }
}

/// Opening the next menu always opens a menu of the bar, and so does opening the previous one.
pub proof fn law_menu_navigation_stays_in_bar(opened: Option<usize>, len: usize)
    requires
        len > 0,
    ensures
        0 <= next_menu_index(opened, len as nat) < len,
        opened matches Some(c) && c < len ==> 0 <= previous_menu_index(opened, len as nat) < len,
        opened is None ==> previous_menu_index(opened, len as nat) == len - 1,
{
    if let Some(c) = opened {
        assert(0 <= (c + 1) % (len as int) < len) by (nonlinear_arith)
            requires
                len > 0,
                c >= 0,
        ;
    }
}

/// Moving the focus never lands on a separator: it lands on a selectable item of the
/// menu, and it lands nowhere only when the menu has no selectable item.
pub proof fn law_focus_lands_on_selectable(items: Seq<MenuItem>, focused: Option<usize>, r: Option<usize>)
    requires
        is_focus_next(items, focused, r) || is_focus_previous(items, focused, r),
    ensures
        r matches Some(i) ==> i < items.len() && items[i as int].spec_selectable(),
        r is None <==> no_selectable_in(items, 0, items.len() as int),
{
    if r is None {
    } else {
        let i = r.unwrap() as int;
    }
}

/// From a focused selectable item, "next" then "previous" gives the focus back to it.
pub proof fn law_focus_next_then_previous(
    items: Seq<MenuItem>,
    current: usize,
    next: Option<usize>,
    back: Option<usize>,
)
    requires
        current < items.len(),
        items[current as int].spec_selectable(),
        is_next_selectable(items, current as int, next),
        next matches Some(n) && is_previous_selectable(items, n as int, back),
    ensures
        back == Some(current),
{
}

/// From a focused selectable item, "previous" then "next" gives the focus back to it.
pub proof fn law_focus_previous_then_next(
    items: Seq<MenuItem>,
    current: usize,
    previous: Option<usize>,
    back: Option<usize>,
)
    requires
        current < items.len(),
        items[current as int].spec_selectable(),
        is_previous_selectable(items, current as int, previous),
        previous matches Some(p) && is_next_selectable(items, p as int, back),
    ensures
        back == Some(current),
{
}

/// Every submenu of a closed item is closed and unfocused, at every depth.
pub proof fn law_closed_item_is_fully_closed(a: MenuItem, b: MenuItem)
    requires
        closed_item(a, b),
    ensures
        fully_closed(b),
    decreases a,
{
    if let MenuItem::SubMenu(s) = a {
        if let MenuItem::SubMenu(t) = b {
            assert forall|i: int| #![trigger t.items@[i]] 0 <= i < t.items@.len() implies fully_closed(
                t.items@[i],
            ) by {
                law_closed_item_is_fully_closed(s.items@[i], t.items@[i]);
            }
        }
    }
}

/// A closed menu has no focused item and no open or focused submenu at any depth.
pub proof fn law_closed_menu_is_fully_closed(a: Menu, b: Menu)
    requires
        closed_menu(a, b),
    ensures
        b.focused_item is None,
        forall|i: int| #![trigger b.items@[i]] 0 <= i < b.items@.len() ==> fully_closed(b.items@[i]),
{
    assert forall|i: int| #![trigger b.items@[i]] 0 <= i < b.items@.len() implies fully_closed(
        b.items@[i],
    ) by {
        law_closed_item_is_fully_closed(a.items@[i], b.items@[i]);
    }
}

/// Closing an item that is already fully closed gives a copy of it: nothing changes.
proof fn lemma_close_fully_closed_is_copy(b: MenuItem, c: MenuItem)
    requires
        fully_closed(b),
        closed_item(b, c),
    ensures
        same_item(b, c),
    decreases b,
{
    if let MenuItem::SubMenu(t) = b {
        if let MenuItem::SubMenu(u) = c {
            assert forall|i: int| #![trigger t.items@[i]] 0 <= i < t.items@.len() implies same_item(
                t.items@[i],
                u.items@[i],
            ) by {
                lemma_close_fully_closed_is_copy(t.items@[i], u.items@[i]);
            }
        }
    }
}

/// Closing twice is the same as closing once: the second closing gives a copy of the item
/// that the first gave, and both are the first item closed.
pub proof fn law_close_twice_is_close_once(a: MenuItem, b: MenuItem, c: MenuItem)
    requires
        closed_item(a, b),
        closed_item(b, c),
    ensures
        closed_item(a, c),
        same_item(b, c),
    decreases a,
{
    law_closed_item_is_fully_closed(a, b);
    lemma_close_fully_closed_is_copy(b, c);
    if let MenuItem::SubMenu(s) = a {
        if let MenuItem::SubMenu(t) = b {
            if let MenuItem::SubMenu(u) = c {
                assert forall|i: int| #![trigger s.items@[i]] 0 <= i < s.items@.len() implies closed_item(
                    s.items@[i],
                    u.items@[i],
                ) by {
                    law_close_twice_is_close_once(s.items@[i], t.items@[i], u.items@[i]);
                }
            }
        }
    }
}

/// Calling `close_all_submenus` twice is the same as calling it once: the menu after the
/// second call is a copy of the menu after the first (same title, enabled state, hotkey and
/// focus, and item by item the same items at every depth).
pub proof fn law_close_all_submenus_twice_is_once(m: Menu, once: Menu, twice: Menu)
    requires
        closed_items(m.items@, once.items@),
        once == (Menu { items: once.items, ..m }),
        closed_items(once.items@, twice.items@),
        twice == (Menu { items: twice.items, ..once }),
    ensures
        same_menu(once, twice),
        closed_items(m.items@, twice.items@),
{
    assert forall|i: int| #![trigger once.items@[i], twice.items@[i]] 0 <= i < once.items@.len() implies same_item(
        once.items@[i],
        twice.items@[i],
    ) && closed_item(m.items@[i], twice.items@[i]) by {
        law_close_twice_is_close_once(m.items@[i], once.items@[i], twice.items@[i]);
    }
    assert forall|i: int| #![trigger m.items@[i], twice.items@[i]] 0 <= i < m.items@.len() implies closed_item(
        m.items@[i],
        twice.items@[i],
    ) by {
        law_close_twice_is_close_once(m.items@[i], once.items@[i], twice.items@[i]);
    }
}

/// The menu bar line draws only on the first row of its area and only within the area's
/// columns: the row it clears is that row, and each text it writes, title or space, starts
/// at or right of the area's left edge and ends, byte for byte, at its right edge at the
/// latest.
pub proof fn law_menu_bar_draws_only_first_row(
    menus: Seq<Menu>,
    opened: Option<usize>,
    area: Rect,
    k: int,
)
    requires
        bar_fits(menus, area),
        titles_within_cell_range(menus),
        0 <= k <= menus.len(),
    ensures
        forall|i: int|
            #![trigger bar_ops(menus, opened, area, k)[i]]
            0 <= i < bar_ops(menus, opened, area, k).len() ==> draws_within_first_row(
                bar_ops(menus, opened, area, k)[i],
                area,
            ),
    decreases k,
{
    if k > 0 {
        law_menu_bar_draws_only_first_row(menus, opened, area, k - 1);
        lemma_bar_x_from_left(menus, area, k - 1);
        let prev = bar_ops(menus, opened, area, k - 1);
        let all = bar_ops(menus, opened, area, k);
        let x = bar_x(menus, area, k - 1);
        let m = menus[k - 1];
        assert(title_cells(m) == encode_utf8(title_text(m.title@)).len());
        assert(encode_utf8(seq![' ']).len() == 1) by {
            assert(vstd::utf8::is_ascii_chars(seq![' ']));
            vstd::utf8::is_ascii_chars_encode_utf8(seq![' ']);
        }
        assert forall|i: int| #![trigger all[i]] 0 <= i < all.len() implies draws_within_first_row(
            all[i],
            area,
        ) by {
            if i < prev.len() {
                assert(all[i] == prev[i]);
            }
        }
    }
}

/// The column of the bar line never falls left of one cell in from the area's left edge.
proof fn lemma_bar_x_from_left(menus: Seq<Menu>, area: Rect, k: int)
    ensures
        bar_x(menus, area, k) >= area.x + 1,
    decreases k,
{
    if k > 0 {
        lemma_bar_x_from_left(menus, area, k - 1);
    }
}

/// An ASCII label lays out around its hotkey exactly when its characters fit in the cell
/// range from column `x`: every byte of it is a whole character, so the hotkey is never
/// split, and the line after it ends its length further on.
pub proof fn law_ascii_label_lays_out(label: Seq<char>, hotkey: Option<char>, x: int)
    requires
        ascii_label(label, hotkey),
        label.len() <= max_cell(),
        0 <= x <= max_cell(),
    ensures
        label_ok(label, ascii_hotkey_pos(label, hotkey), x) <==> x + label.len() <= max_cell(),
        label_end(label, ascii_hotkey_pos(label, hotkey), x) == x + label.len(),
        ascii_hotkey_pos(label, hotkey) matches Some(p) ==> p < label.len(),
{
    let b = encode_utf8(label);
    vstd::utf8::is_ascii_chars_encode_utf8(label);
    vstd::utf8::encode_utf8_valid_utf8(label);
    vstd::utf8::is_char_boundary_start_end_of_seq(b);
    assert forall|i: int| 0 <= i < b.len() implies vstd::utf8::is_char_boundary(b, i) by {
        assert(b[i] == label[i] as u8);
        vstd::utf8::is_char_boundary_iff_is_leading_byte(b, i);
    }
    if let Some(h) = hotkey {
        if exists|i: usize| first_ascii_match(label, h, i as int) {
            let p = choose|i: usize| first_ascii_match(label, h, i as int);
            assert(first_ascii_match(label, h, p as int));
            assert(vstd::utf8::is_char_boundary(b, p as int));
            assert(vstd::utf8::is_char_boundary(b, p + 1));
        }
    }
}

/// The dropdown of a menu starts strictly to the right of the dropdowns of the menus
/// before it.
pub proof fn law_dropdowns_left_to_right(menus: Seq<Menu>, area: Rect, j: int, k: int)
    requires
        0 <= j < k,
    ensures
        dropdown_x(menus, area, j) < dropdown_x(menus, area, k),
    decreases k,
{
    if j < k - 1 {
        law_dropdowns_left_to_right(menus, area, j, k - 1);
    }
}

/// The widest of the first `n` items is at least as wide as each of them and, for some
/// items, as wide as one of them; it is no wider than a bound that all of them keep.
proof fn lemma_widest_item(items: Seq<MenuItem>, n: int, bound: int)
    requires
        0 <= n <= items.len(),
    ensures
        widest_item(items, n) >= 0,
        forall|k: int| 0 <= k < n ==> widest_item(items, n) >= item_width(#[trigger] items[k]),
        n > 0 ==> exists|k: int| 0 <= k < n && widest_item(items, n) == item_width(#[trigger] items[k]),
        (forall|k: int| 0 <= k < n ==> item_width(#[trigger] items[k]) <= bound) && bound >= 0
            ==> widest_item(items, n) <= bound,
    decreases n,
{
    if n > 0 {
        lemma_widest_item(items, n - 1, bound);
        if n > 1 {
            let k = choose|k: int| 0 <= k < n - 1 && widest_item(items, n - 1) == item_width(#[trigger] items[k]);
            assert(0 <= k < n);
        }
        assert(item_width(items[n - 1]) >= 0);
        assert(widest_item(items, n) == item_width(items[n - 1]) || widest_item(items, n) == widest_item(items, n - 1));
    }
}

/// The width a dropdown of `items` gets, capped at `cap`, from the widths of its items: at
/// least each item's width plus the border and padding (4 cells), up to the cap, and
/// exactly that for its widest item; 10 plus 4 when it has no items.
proof fn lemma_fits_widest(items: Seq<MenuItem>, cap: int)
    requires
        forall|k: int| 0 <= k < items.len() ==> item_width(#[trigger] items[k]) <= max_cell(),
        0 <= cap <= max_cell(),
    ensures
        forall|k: int| 0 <= k < items.len() ==> min_int(content_cells(items) + 4, cap) >= min_int(
            item_width(#[trigger] items[k]) + 4,
            cap,
        ),
        items.len() == 0 ==> min_int(content_cells(items) + 4, cap) == min_int(14, cap),
        items.len() > 0 ==> exists|k: int|
            0 <= k < items.len() && min_int(content_cells(items) + 4, cap) == min_int(
                item_width(#[trigger] items[k]) + 4,
                cap,
            ),
{
    lemma_widest_item(items, items.len() as int, max_cell());
    assert(content_cells(items) == if items.len() == 0 { 10 } else { widest_item(items, items.len() as int) });
}

/// The dropdown of a menu is wide enough for every item of the menu (its label, and a space
/// and its shortcut or a space and an arrow) plus 4 cells, up to 40 cells, and exactly as
/// wide as that for its widest item; an empty menu's dropdown is 14 cells wide.
pub proof fn law_dropdown_fits_widest_item(menus: Seq<Menu>, area: Rect, index: int)
    requires
        0 <= index < menus.len(),
        forall|k: int|
            0 <= k < menus[index].items@.len() ==> item_width(#[trigger] menus[index].items@[k])
                <= max_cell(),
    ensures
        forall|k: int|
            0 <= k < menus[index].items@.len() ==> dropdown_area_spec(menus, area, index).width
                >= min_int(item_width(#[trigger] menus[index].items@[k]) + 4, 40),
        menus[index].items@.len() == 0 ==> dropdown_area_spec(menus, area, index).width == 14,
        menus[index].items@.len() > 0 ==> exists|k: int|
            0 <= k < menus[index].items@.len() && dropdown_area_spec(menus, area, index).width
                == min_int(item_width(#[trigger] menus[index].items@[k]) + 4, 40),
{
    let items = menus[index].items@;
    lemma_fits_widest(items, 40);
    assert(dropdown_area_spec(menus, area, index).width == min_int(content_cells(items) + 4, 40));
}

/// A submenu's dropdown is wide enough for every item of the submenu plus 4 cells, up to 30
/// cells, and exactly as wide as that for its widest item; an empty submenu's dropdown is 14
/// cells wide.
pub proof fn law_submenu_fits_widest_item(parent_area: Rect, parent_y: u16, submenu: SubMenuItem)
    requires
        forall|k: int|
            0 <= k < submenu.items@.len() ==> item_width(#[trigger] submenu.items@[k]) <= max_cell(),
    ensures
        forall|k: int|
            0 <= k < submenu.items@.len() ==> submenu_area_spec(parent_area, parent_y, submenu).width
                >= min_int(item_width(#[trigger] submenu.items@[k]) + 4, 30),
        submenu.items@.len() == 0 ==> submenu_area_spec(parent_area, parent_y, submenu).width == 14,
        submenu.items@.len() > 0 ==> exists|k: int|
            0 <= k < submenu.items@.len() && submenu_area_spec(parent_area, parent_y, submenu).width
                == min_int(item_width(#[trigger] submenu.items@[k]) + 4, 30),
{
    let items = submenu.items@;
    lemma_fits_widest(items, 30);
    assert(submenu_area_spec(parent_area, parent_y, submenu).width == min_int(content_cells(items) + 4, 30));
}

/// A label written around its hotkey at byte `p` underlines exactly one byte, at column
/// `x + p`; written without a hotkey it underlines nothing.
proof fn lemma_label_underline(label: Seq<char>, pos: Option<usize>, x: int, y: u16, role: StyleRole)
    requires
        label_ok(label, pos, x),
        0 <= x,
    ensures
        pos matches Some(p) ==> underlined_once_at(label_ops(label, pos, x, y, role), x + (p as u16), y),
        pos is None ==> no_underline(label_ops(label, pos, x, y, role)),
{
    let ops = label_ops(label, pos, x, y, role);
    if let Some(p) = pos {
        let b = encode_utf8(label);
        assert(ops[1] matches OpView::Text { x: ux, y: uy, text, underlined, .. } && underlined && ux
            == x + (p as u16) && uy == y && text.len() == 1);
        assert forall|j: int| #![trigger ops[j]] 0 <= j < ops.len() && j != 1 implies !is_underlined(ops[j]) by {}
    }
}

/// Where a line is written with `prefix` before the label and `suffix` after it, and
/// neither underlines anything, the line underlines what the label underlines.
proof fn lemma_line_underline(prefix: Seq<OpView>, mid: Seq<OpView>, suffix: Seq<OpView>, col: int, y: u16)
    requires
        no_underline(prefix),
        no_underline(suffix),
    ensures
        underlined_once_at(mid, col, y) ==> underlined_once_at(prefix + mid + suffix, col, y),
        no_underline(mid) ==> no_underline(prefix + mid + suffix),
{
    let all = prefix + mid + suffix;
    assert forall|j: int| #![trigger all[j]] 0 <= j < prefix.len() implies all[j] == prefix[j] by {}
    assert forall|j: int| #![trigger all[j]] prefix.len() <= j < prefix.len() + mid.len() implies all[j]
        == mid[j - prefix.len()] by {}
    assert forall|j: int| #![trigger all[j]] prefix.len() + mid.len() <= j < all.len() implies all[j]
        == suffix[j - prefix.len() - mid.len()] by {}
    if underlined_once_at(mid, col, y) {
        let k = choose|k: int|
            #![trigger mid[k]]
            0 <= k < mid.len() && (mid[k] matches OpView::Text { x, y: ty, text, underlined, .. } && underlined
                && x == col && ty == y && text.len() == 1) && forall|j: int|
                #![trigger mid[j]]
                0 <= j < mid.len() && j != k ==> !is_underlined(mid[j]);
        let kk = k + prefix.len();
        assert(all[kk] == mid[k]);
        assert forall|j: int| #![trigger all[j]] 0 <= j < all.len() && j != kk implies !is_underlined(all[j]) by {
            if j < prefix.len() {
                assert(!is_underlined(prefix[j]));
            } else if j < prefix.len() + mid.len() {
                assert(!is_underlined(mid[j - prefix.len()]));
            } else {
                assert(!is_underlined(suffix[j - prefix.len() - mid.len()]));
            }
        }
    }
    if no_underline(mid) {
        assert forall|j: int| #![trigger all[j]] 0 <= j < all.len() implies !is_underlined(all[j]) by {
            if j < prefix.len() {
                assert(!is_underlined(prefix[j]));
            } else if j < prefix.len() + mid.len() {
                assert(!is_underlined(mid[j - prefix.len()]));
            } else {
                assert(!is_underlined(suffix[j - prefix.len() - mid.len()]));
            }
        }
    }
}

/// The line of a submenu underlines its hotkey: exactly one byte, at the hotkey's byte in
/// the label, counted from the line's column; a submenu whose hotkey is not found, or that
/// has none, underlines nothing.
pub proof fn law_submenu_line_underlines_hotkey(s: SubMenuItem, x: int, y: u16, width: u16, role: StyleRole)
    requires
        submenu_line_ok(s, x, width),
        0 <= x,
    ensures
        hotkey_pos(s.label@, s.hotkey) matches Some(p) ==> underlined_once_at(
            submenu_line_ops(s, x, y, width, role),
            x + (p as u16),
            y,
        ),
        hotkey_pos(s.label@, s.hotkey) is None ==> no_underline(submenu_line_ops(s, x, y, width, role)),
{
    let pos = hotkey_pos(s.label@, s.hotkey);
    lemma_label_underline(s.label@, pos, x, y, role);
    let ops = submenu_line_ops(s, x, y, width, role);
    let prefix = seq![OpView::FillRow { x: x as u16, y, width, role }];
    let mid = label_ops(s.label@, pos, x, y, role);
    let suffix = ops.subrange((prefix.len() + mid.len()) as int, ops.len() as int);
    assert(ops =~= prefix + mid + suffix);
    assert(no_underline(prefix));
    assert(no_underline(suffix));
    let col = match pos { Some(p) => x + (p as u16), None => 0 };
    lemma_line_underline(prefix, mid, suffix, col, y);
}

/// The line of an action underlines its hotkey: exactly one byte, at the hotkey's byte in
/// the label, counted from the line's column; an action whose hotkey is not found, or that
/// has none, underlines nothing.
pub proof fn law_action_line_underlines_hotkey(a: ActionItem, x: int, y: u16, width: u16, role: StyleRole)
    requires
        action_line_ok(a, x, width),
        0 <= x,
    ensures
        hotkey_pos(a.label@, a.hotkey) matches Some(p) ==> underlined_once_at(
            action_line_ops(a, x, y, width, role),
            x + (p as u16),
            y,
        ),
        hotkey_pos(a.label@, a.hotkey) is None ==> no_underline(action_line_ops(a, x, y, width, role)),
{
    let pos = hotkey_pos(a.label@, a.hotkey);
    lemma_label_underline(a.label@, pos, x, y, role);
    let ops = action_line_ops(a, x, y, width, role);
    let prefix = seq![OpView::FillRow { x: x as u16, y, width, role }];
    let mid = label_ops(a.label@, pos, x, y, role);
    let suffix = ops.subrange((prefix.len() + mid.len()) as int, ops.len() as int);
    assert(ops =~= prefix + mid + suffix);
    assert(no_underline(prefix));
    assert(no_underline(suffix));
    let col = match pos { Some(p) => x + (p as u16), None => 0 };
    lemma_line_underline(prefix, mid, suffix, col, y);
}

/// When a menu is open, the whole menu bar starts by clearing and bordering the area that
/// `calculate_dropdown_area` gives for that menu: its dropdown goes under its own title.
pub proof fn law_render_opens_dropdown_of_open_menu(bar: MenuBar, area: Rect)
    ensures
        match bar.opened_menu {
            Some(i) => i < bar.menus@.len() ==> {
                &&& render_ops(bar, area).len() >= 2
                &&& render_ops(bar, area)[0] == OpView::Clear {
                    area: dropdown_area_spec(bar.menus@, area, i as int),
                }
                &&& render_ops(bar, area)[1] == OpView::Border {
                    area: dropdown_area_spec(bar.menus@, area, i as int),
                }
            },
            None => true,
        },
{
}

/// The dropdown of menu `i` starts at the column where the bar line writes menu `i`'s title,
/// wherever every title before it, and the space after each, is drawn inside the area.
pub proof fn law_dropdown_under_its_title(menus: Seq<Menu>, area: Rect, i: int)
    requires
        0 <= i < menus.len(),
        forall|j: int|
            #![trigger menus[j]]
            0 <= j < i ==> bar_x(menus, area, j) + title_cells(menus[j]) < area.x + area.width,
    ensures
        dropdown_x(menus, area, i) == bar_x(menus, area, i),
    decreases i,
{
    if i > 0 {
        law_dropdown_under_its_title(menus, area, i - 1);
        assert(bar_x(menus, area, i - 1) + title_cells(menus[i - 1]) < area.x + area.width);
    }
}

/// The rows of the first `i` items of a dropdown come first among those of the first `m`.
proof fn lemma_menu_rows_prefix(
    items: Seq<MenuItem>,
    focused: Option<usize>,
    area: Rect,
    content: Rect,
    i: int,
    m: int,
)
    requires
        0 <= i <= m,
    ensures
        menu_rows_ops(items, focused, area, content, i).len() <= menu_rows_ops(items, focused, area, content, m).len(),
        menu_rows_ops(items, focused, area, content, m).subrange(
            0,
            menu_rows_ops(items, focused, area, content, i).len() as int,
        ) == menu_rows_ops(items, focused, area, content, i),
    decreases m,
{
    if m > i {
        lemma_menu_rows_prefix(items, focused, area, content, i, m - 1);
        let a = menu_rows_ops(items, focused, area, content, m - 1);
        let b = menu_rows_ops(items, focused, area, content, m);
        let p = menu_rows_ops(items, focused, area, content, i);
        assert(b.subrange(0, p.len() as int) =~= a.subrange(0, p.len() as int));
    } else {
        let p = menu_rows_ops(items, focused, area, content, i);
        assert(p.subrange(0, p.len() as int) =~= p);
    }
}

/// In the dropdown of a menu, an open submenu's dropdown is cleared and bordered where
/// `calculate_submenu_area` puts it for the submenu's own row, `y` = the content's top row
/// plus the item's index: the same row as the background of the submenu's line, drawn
/// before it. (A dropdown that lays out has every drawn row in the cell range.)
pub proof fn law_open_submenu_beside_its_row(menu: Menu, area: Rect, i: int)
    requires
        0 <= i < rows_drawn(menu.items@, bordered_inner_spec(area)),
        bordered_inner_spec(area).y + i <= max_cell(),
        menu.items@[i] is SubMenu,
        menu.items@[i]->SubMenu_0.is_open,
    ensures
        ({
            let content = bordered_inner_spec(area);
            let y = (content.y + i) as u16;
            let s = menu.items@[i]->SubMenu_0;
            let ops = dropdown_ops(menu, area);
            &&& y == content.y + i
            &&& exists|k: int, m: int|
                #![trigger ops[k], ops[m]]
                0 <= k < m && m + 1 < ops.len() && (ops[k] matches OpView::FillRow { x, y: fy, .. }
                    && x == content.x && fy == y) && ops[m] == OpView::Clear {
                    area: submenu_area_spec(area, y, s),
                } && ops[m + 1] == OpView::Border { area: submenu_area_spec(area, y, s) }
                    && submenu_area_spec(area, y, s).y == y
        }),
{
    let items = menu.items@;
    let content = bordered_inner_spec(area);
    let n = rows_drawn(items, content);
    let f = menu.focused_item;
    let y = (content.y + i) as u16;
    let s = items[i]->SubMenu_0;
    assert(items[i] == MenuItem::SubMenu(s));
    assert(items[i] matches MenuItem::SubMenu(t) && t.is_open);
    lemma_menu_rows_prefix(items, f, area, content, i + 1, n);
    let before = menu_rows_ops(items, f, area, content, i);
    let row = menu_row_ops(items[i], i, f, area, content);
    let upto = menu_rows_ops(items, f, area, content, i + 1);
    assert(upto == before + row);
    let rows = menu_rows_ops(items, f, area, content, n);
    let ops = dropdown_ops(menu, area);
    assert(ops == seq![OpView::Clear { area }, OpView::Border { area }] + rows);
    let line = submenu_line_ops(s, content.x as int, y, content.width, super::render::item_role(f == Some(i as usize), s.enabled));
    let sub = super::render::submenu_dropdown_ops(s, submenu_area_spec(area, y, s));
    assert(row == line + sub);
    let k: int = 2 + before.len() as int;
    let m: int = k + line.len() as int;
    assert(rows.subrange(0, upto.len() as int) == upto);
    assert(rows[before.len() as int] == upto[before.len() as int]);
    assert(upto[before.len() as int] == line[0]);
    assert(ops[k] == line[0]);
    assert(rows[(before.len() + line.len()) as int] == upto[(before.len() + line.len()) as int]);
    assert(rows[(before.len() + line.len() + 1) as int] == upto[(before.len() + line.len() + 1) as int]);
    assert(ops[m] == sub[0]);
    assert(ops[m + 1] == sub[1]);
}

/// A dropdown opens on the row below the menu bar, at most 40 cells wide and at most as
/// high as the area below the bar.
pub proof fn law_dropdown_bounds(menus: Seq<Menu>, area: Rect, index: int)
    requires
        dropdown_area_ok(menus, area, index),
    ensures
        dropdown_area_spec(menus, area, index).y == area.y + 1,
        dropdown_area_spec(menus, area, index).width <= 40,
        dropdown_area_spec(menus, area, index).height <= area.height - 1,
{
}

/// A submenu's dropdown opens right of its parent dropdown, at the row of its item, and is
/// at most 30 cells wide.
pub proof fn law_submenu_bounds(parent_area: Rect, parent_y: u16, submenu: SubMenuItem)
    requires
        submenu_area_ok(parent_area, submenu),
    ensures
        submenu_area_spec(parent_area, parent_y, submenu).x == parent_area.x + parent_area.width,
        submenu_area_spec(parent_area, parent_y, submenu).y == parent_y,
        submenu_area_spec(parent_area, parent_y, submenu).width <= 30,
{
}

} // verus!
