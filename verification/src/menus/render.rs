//! What a menu bar draws, and where.
//!
//! The layout of the menu bar line, of the dropdown of the open menu and of an open
//! submenu is computed here as a list of drawing operations on terminal cells. Painting
//! those operations into a terminal buffer, with the colours of a theme, is left to the
//! caller.

use vstd::prelude::*;
use vstd::utf8::{encode_utf8, is_char_boundary};

use super::bar::MenuBar;
use super::items::{ActionItem, MenuItem, SubMenuItem};
use super::laws::{
    law_action_line_underlines_hotkey, law_menu_bar_draws_only_first_row,
    law_submenu_line_underlines_hotkey,
};
use super::menu::Menu;

verus! {

/// A rectangle of terminal cells.
#[derive(Debug, Clone, Copy, PartialEq, Eq, Structural)]
pub struct Rect {
    pub x: u16,
    pub y: u16,
    pub width: u16,
    pub height: u16,
}

impl Rect {
    /// Creates a rectangle; the width and height are cut so that it ends within the cell
    /// range.
    pub fn new(x: u16, y: u16, width: u16, height: u16) -> (r: Rect)
        ensures
            r == (Rect {
                x,
                y,
                width: (sat_add(x, width) - x) as u16,
                height: (sat_add(y, height) - y) as u16,
            }),
    {
        Rect {
            x,
            y,
            width: x.saturating_add(width) - x,
            height: y.saturating_add(height) - y,
        }
    }
}

/// The part of a theme that a drawing operation is painted with.
#[derive(Debug, Clone, Copy, PartialEq, Eq, Structural)]
pub enum StyleRole {
    /// The menu bar background and its titles
    MenuBar,
    /// The title of the open menu
    MenuBarFocused,
    /// Dropdown background
    Dropdown,
    /// Dropdown borders
    DropdownBorder,
    /// A normal menu item
    Item,
    /// The focused menu item
    ItemFocused,
    /// A disabled menu item
    ItemDisabled,
    /// A separator line
    Separator,
    /// The arrow of a submenu
    SubmenuIndicator,
}

/// One drawing operation on a terminal buffer.
#[derive(Debug, PartialEq, Eq)]
pub enum DrawOp {
    /// Writes a space, in the role's style, into every cell of `area`.
    Fill { area: Rect, role: StyleRole },
    /// Writes a space, in the role's style, into the `width` cells from column `x` of row `y`.
    FillRow { x: u16, y: u16, width: u16, role: StyleRole },
    /// Writes `text` from cell (`x`, `y`) on, in the role's style, underlined if asked.
    Text { x: u16, y: u16, text: String, role: StyleRole, underlined: bool },
    /// Resets every cell of `area`, and the cell left of it on a row where that cell holds
    /// a wide character.
    Clear { area: Rect },
    /// Draws a bordered block over `area`, with the dropdown and border styles.
    Border { area: Rect },
    /// Draws a separator line `├──┤` across the `width` cells from column `x` of row `y`.
    SeparatorLine { x: u16, y: u16, width: u16 },
}

/// What a drawing operation does, with its text given as its UTF-8 bytes.
pub enum OpView {
    Fill { area: Rect, role: StyleRole },
    FillRow { x: u16, y: u16, width: u16, role: StyleRole },
    Text { x: u16, y: u16, text: Seq<u8>, role: StyleRole, underlined: bool },
    Clear { area: Rect },
    Border { area: Rect },
    SeparatorLine { x: u16, y: u16, width: u16 },
}

impl View for DrawOp {
    type V = OpView;

    open spec fn view(&self) -> OpView {
        match self {
            DrawOp::Fill { area, role } => OpView::Fill { area: *area, role: *role },
            DrawOp::FillRow { x, y, width, role } => OpView::FillRow {
                x: *x,
                y: *y,
                width: *width,
                role: *role,
            },
            DrawOp::Text { x, y, text, role, underlined } => OpView::Text {
                x: *x,
                y: *y,
                text: encode_utf8(text@),
                role: *role,
                underlined: *underlined,
            },
            DrawOp::Clear { area } => OpView::Clear { area: *area },
            DrawOp::Border { area } => OpView::Border { area: *area },
            DrawOp::SeparatorLine { x, y, width } => OpView::SeparatorLine {
                x: *x,
                y: *y,
                width: *width,
            },
        }
    }
}

/// What a list of drawing operations does, in order.
pub open spec fn ops_view(ops: Seq<DrawOp>) -> Seq<OpView> {
    ops.map_values(|o: DrawOp| o@)
}

fn push_op(ops: &mut Vec<DrawOp>, op: DrawOp)
    ensures
        ops_view(final(ops)@) == ops_view(old(ops)@).push(op@),
{
    ops.push(op);
}

fn append_ops(ops: &mut Vec<DrawOp>, more: Vec<DrawOp>)
    ensures
        ops_view(final(ops)@) == ops_view(old(ops)@) + ops_view(more@),
{
    let mut more = more;
    ops.append(&mut more);
}

// ---------------------------------------------------------------------------
// Arithmetic on cells
// ---------------------------------------------------------------------------

/// The largest cell coordinate.
pub open spec fn max_cell() -> int {
    u16::MAX as int
}

/// `a + b`, saturated at the largest cell coordinate.
pub open spec fn sat_add(a: u16, b: u16) -> u16 {
    if a + b > u16::MAX {
        u16::MAX
    } else {
        (a + b) as u16
    }
}

/// `a - b`, saturated at 0.
pub open spec fn sat_sub(a: u16, b: u16) -> u16 {
    if a < b {
        0
    } else {
        (a - b) as u16
    }
}

/// The smaller of two integers.
pub open spec fn min_int(a: int, b: int) -> int {
    if a <= b {
        a
    } else {
        b
    }
}

/// The larger of two integers.
pub open spec fn max_int(a: int, b: int) -> int {
    if a >= b {
        a
    } else {
        b
    }
}

/// The number of bytes of the UTF-8 encoding of `s`, as `str::len` reports it.
pub open spec fn byte_len(s: Seq<char>) -> int {
    (encode_utf8(s).len() as usize) as int
}

/// The cell count that the layout takes for text of `s`: its byte length cut to 16 bits.
pub open spec fn cells_of(s: Seq<char>) -> int {
    ((encode_utf8(s).len() as usize) as u16) as int
}

/// The inside of a block with borders on all four sides.
pub open spec fn bordered_inner_spec(area: Rect) -> Rect {
    let right = sat_add(area.x, area.width);
    let bottom = sat_add(area.y, area.height);
    Rect {
        x: if sat_add(area.x, 1) <= right {
            sat_add(area.x, 1)
        } else {
            right
        },
        y: if sat_add(area.y, 1) <= bottom {
            sat_add(area.y, 1)
        } else {
            bottom
        },
        width: sat_sub(sat_sub(area.width, 1), 1),
        height: sat_sub(sat_sub(area.height, 1), 1),
    }
}

/// The area inside the borders of a bordered block drawn over `area`.
///
/// Calls `ratatui_widgets::block::Block::inner` on `Block::bordered()`, which has borders on
/// all sides, no title and no padding. Its source moves the left edge right by one and the
/// top edge down by one (saturating, and at most to the right or bottom edge) and takes one
/// cell off the width and off the height for each border (saturating at zero).
#[verifier::external_body]
fn bordered_inner(area: Rect) -> (r: Rect)
    ensures
        r == bordered_inner_spec(area),
{
    let inner = ratatui_widgets::block::Block::bordered().inner(
        ratatui_core::layout::Rect {
            x: area.x,
            y: area.y,
            width: area.width,
            height: area.height,
        },
    );
    Rect { x: inner.x, y: inner.y, width: inner.width, height: inner.height }
}

// ---------------------------------------------------------------------------
// Menu titles and the position of dropdowns
// ---------------------------------------------------------------------------

/// The text of a menu title in the menu bar: the title with a space on each side.
pub open spec fn title_text(title: Seq<char>) -> Seq<char> {
    seq![' '] + title + seq![' ']
}

/// The text of a menu title in the menu bar: the title with a space on each side.
pub fn menu_title_text(title: &str) -> (r: String)
    ensures
        r@ == title_text(title@),
{
    let mut text = String::new();
    text.append(" ");
    text.append(title);
    text.append(" ");
    proof {
        reveal_strlit(" ");
    }
    text
}

/// The cells that the title of a menu takes in the menu bar.
pub open spec fn title_cells(menu: Menu) -> int {
    cells_of(title_text(menu.title@))
}

/// The column at which the dropdown of menu `k` starts: one cell in from the left of the
/// bar, then the title of each menu before it and one cell of space after each.
pub open spec fn dropdown_x(menus: Seq<Menu>, area: Rect, k: int) -> int
    decreases k,
{
    if k <= 0 {
        area.x + 1
    } else {
        dropdown_x(menus, area, k - 1) + (title_cells(menus[k - 1]) + 1)
    }
}

/// No addition in finding the column of the dropdown of menu `index` leaves the cell range.
pub open spec fn dropdown_x_fits(menus: Seq<Menu>, area: Rect, index: int) -> bool {
    &&& area.x + 1 <= max_cell()
    &&& forall|k: int|
        #![trigger menus[k]]
        0 <= k < index ==> {
            &&& title_cells(menus[k]) + 1 <= max_cell()
            &&& dropdown_x(menus, area, k) + (title_cells(menus[k]) + 1) <= max_cell()
        }
}

/// The cells that an item asks for in a dropdown: its label, then a space and the shortcut
/// of an action, or a space and an arrow for a submenu; nothing for a separator.
pub open spec fn item_width(item: MenuItem) -> int {
    match item {
        MenuItem::Action(a) => byte_len(a.label@) + match a.shortcut {
            Some(s) => byte_len(s@) + 1,
            None => 0,
        },
        MenuItem::SubMenu(s) => byte_len(s.label@) + 2,
        MenuItem::Separator(_) => 0,
    }
}

/// The widest of the first `k` items.
pub open spec fn widest_item(items: Seq<MenuItem>, k: int) -> int
    decreases k,
{
    if k <= 0 {
        0
    } else {
        max_int(widest_item(items, k - 1), item_width(items[k - 1]))
    }
}

/// The width of the content of a dropdown: that of its widest item, 10 when it is empty,
/// cut to 16 bits.
pub open spec fn content_cells(items: Seq<MenuItem>) -> int {
    (if items.len() == 0 {
        10
    } else {
        widest_item(items, items.len() as int)
    }) as u16 as int
}

/// The number of items of a dropdown cut to 16 bits, as the layout counts rows.
pub open spec fn row_count(items: Seq<MenuItem>) -> int {
    (items.len() as u16) as int
}

fn str_width(s: &str) -> (r: u128)
    ensures
        r == byte_len(s@),
{
    s.len() as u128
}

fn item_width_of(item: &MenuItem) -> (r: u128)
    ensures
        r == item_width(*item),
{
    match item {
        MenuItem::Action(action) => {
            let label_len = str_width(action.label.as_str());
            let shortcut_len = match &action.shortcut {
                Some(s) => str_width(s.as_str()) + 1,
                None => 0,
            };
            label_len + shortcut_len
        },
        MenuItem::SubMenu(submenu) => str_width(submenu.label.as_str()) + 2,
        MenuItem::Separator(_) => 0,
    }
}

/// The width of the content of a dropdown listing `items`.
fn content_width(items: &Vec<MenuItem>) -> (r: u16)
    ensures
        r == content_cells(items@),
{
    if items.len() == 0 {
        return 10;
    }
    let mut widest: u128 = 0;
    let mut i: usize = 0;
    while i < items.len()
        invariant
            i <= items@.len(),
            widest == widest_item(items@, i as int),
            widest <= 2 * u64::MAX + 2,
        decreases items@.len() - i,
    {
        let w = item_width_of(&items[i]);
        if w > widest {
            widest = w;
        }
        i = i + 1;
    }
    widest as u16
}

/// Whether the width and height of a dropdown listing `items` stay in the cell range.
pub open spec fn dropdown_size_fits(items: Seq<MenuItem>) -> bool {
    &&& content_cells(items) + 4 <= max_cell()
    &&& row_count(items) + 2 <= max_cell()
}

/// Where the dropdown of menu `index` goes.
pub open spec fn dropdown_area_spec(menus: Seq<Menu>, area: Rect, index: int) -> Rect {
    let items = menus[index].items@;
    Rect {
        x: dropdown_x(menus, area, index) as u16,
        y: (area.y + 1) as u16,
        width: min_int(content_cells(items) + 4, 40) as u16,
        height: min_int(row_count(items) + 2, area.height - 1) as u16,
    }
}

/// Whether the dropdown of menu `index` can be placed in `area` without leaving the cell
/// range.
pub open spec fn dropdown_area_ok(menus: Seq<Menu>, area: Rect, index: int) -> bool {
    &&& 0 <= index < menus.len()
    &&& dropdown_x_fits(menus, area, index)
    &&& area.y + 1 <= max_cell()
    &&& area.height >= 1
    &&& dropdown_size_fits(menus[index].items@)
}

/// Where a submenu's dropdown goes: to the right of its parent dropdown, at row `parent_y`.
pub open spec fn submenu_area_spec(parent_area: Rect, parent_y: u16, submenu: SubMenuItem) -> Rect {
    let items = submenu.items@;
    Rect {
        x: (parent_area.x + parent_area.width) as u16,
        y: parent_y,
        width: min_int(content_cells(items) + 4, 30) as u16,
        height: (row_count(items) + 2) as u16,
    }
}

/// Whether a submenu's dropdown can be placed next to `parent_area` without leaving the
/// cell range.
pub open spec fn submenu_area_ok(parent_area: Rect, submenu: SubMenuItem) -> bool {
    &&& parent_area.x + parent_area.width <= max_cell()
    &&& dropdown_size_fits(submenu.items@)
}

impl MenuBar {
    /// Calculates the area of the dropdown of menu `menu_index`: below the menu bar, under
    /// the menu's title, wide enough for its widest item (at most 40 cells), one row per
    /// item plus the borders (at most what the area has below the bar).
    pub fn calculate_dropdown_area(&self, area: Rect, menu_index: usize) -> (r: Rect)
        requires
            dropdown_area_ok(self.menus@, area, menu_index as int),
        ensures
            r == dropdown_area_spec(self.menus@, area, menu_index as int),
    {
        let mut x_offset: u16 = area.x + 1;
        let mut index: usize = 0;
        while index < menu_index
            invariant
                index <= menu_index,
                menu_index < self.menus@.len(),
                dropdown_x_fits(self.menus@, area, menu_index as int),
                x_offset == dropdown_x(self.menus@, area, index as int),
            decreases menu_index - index,
        {
            let text = menu_title_text(self.menus[index].title.as_str());
            let w = text.as_str().len() as u16;
            x_offset = x_offset + (w + 1);
            index = index + 1;
        }
        let menu = &self.menus[menu_index];
        let max_item_width = content_width(&menu.items);
        let dropdown_width = if max_item_width + 4 < 40 {
            max_item_width + 4
        } else {
            40
        };
        let rows = menu.items.len() as u16 + 2;
        let below = area.height - 1;
        Rect {
            x: x_offset,
            y: area.y + 1,
            width: dropdown_width,
            height: if rows < below {
                rows
            } else {
                below
            },
        }
    }

    /// Calculates the area of a submenu's dropdown: to the right of the parent dropdown, at
    /// row `parent_y`, wide enough for its widest item (at most 30 cells), one row per item
    /// plus the borders.
    pub fn calculate_submenu_area(
        &self,
        parent_area: Rect,
        parent_x: u16,
        parent_y: u16,
        submenu: &SubMenuItem,
    ) -> (r: Rect)
        requires
            submenu_area_ok(parent_area, *submenu),
        ensures
            r == submenu_area_spec(parent_area, parent_y, *submenu),
    {
        let max_item_width = content_width(&submenu.items);
        let submenu_width = if max_item_width + 4 < 30 {
            max_item_width + 4
        } else {
            30
        };
        let submenu_height = submenu.items.len() as u16 + 2;
        Rect {
            x: parent_area.x + parent_area.width,
            y: parent_y,
            width: submenu_width,
            height: submenu_height,
        }
    }
}

// ---------------------------------------------------------------------------
// The menu bar line
// ---------------------------------------------------------------------------

/// The column after a title laid out from column `x`: it moves on by the title's cells
/// when the title still fits in the area.
pub open spec fn title_end_from(x: int, menu: Menu, area: Rect) -> int {
    if x + title_cells(menu) <= area.x + area.width {
        x + title_cells(menu)
    } else {
        x
    }
}

/// Whether the space after title `k - 1`, at column `x1`, is drawn: a space follows every
/// title but the last, where its column is still inside the area.
pub open spec fn space_drawn_at(menus: Seq<Menu>, area: Rect, k: int, x1: int) -> bool {
    k < menus.len() && x1 < area.x + area.width
}

/// The column after the titles of the first `k` menus in the bar: each title that still
/// fits in the area is written and moves the column on, and so does each space drawn
/// after a title.
pub open spec fn bar_x(menus: Seq<Menu>, area: Rect, k: int) -> int
    decreases k,
{
    if k <= 0 {
        area.x + 1
    } else {
        let x1 = title_end_from(bar_x(menus, area, k - 1), menus[k - 1], area);
        if space_drawn_at(menus, area, k, x1) {
            x1 + 1
        } else {
            x1
        }
    }
}

/// The column right after the title of menu `k - 1`, where the space after it goes.
pub open spec fn bar_title_end(menus: Seq<Menu>, area: Rect, k: int) -> int {
    title_end_from(bar_x(menus, area, k - 1), menus[k - 1], area)
}

/// Whether the space after the title of menu `k - 1` is drawn.
pub open spec fn bar_space_drawn(menus: Seq<Menu>, area: Rect, k: int) -> bool {
    space_drawn_at(menus, area, k, bar_title_end(menus, area, k))
}

/// No addition in laying out the menu bar leaves the cell range.
pub open spec fn bar_fits(menus: Seq<Menu>, area: Rect) -> bool {
    &&& area.x + 1 <= max_cell()
    &&& menus.len() > 0 ==> area.x + area.width <= max_cell()
    &&& forall|k: int|
        #![trigger menus[k]]
        0 <= k < menus.len() ==> bar_x(menus, area, k) + title_cells(menus[k]) <= max_cell()
}

/// Every title of the bar, with its padding, is at most `max_cell()` bytes long, so that
/// its cell count in the layout is its byte length.
pub open spec fn titles_within_cell_range(menus: Seq<Menu>) -> bool {
    forall|k: int|
        #![trigger menus[k]]
        0 <= k < menus.len() ==> encode_utf8(title_text(menus[k].title@)).len() <= max_cell()
}

/// `op` draws only on the first row of `area` and within its columns: a fill one row high
/// on that row, or text on it whose bytes start at or right of the area's left edge and end
/// at its right edge at the latest.
pub open spec fn draws_within_first_row(op: OpView, area: Rect) -> bool {
    match op {
        OpView::Fill { area: a, .. } => {
            &&& a.y == area.y
            &&& a.height == 1
            &&& area.x <= a.x
            &&& a.x + a.width <= area.x + area.width
        },
        OpView::Text { x, y, text, .. } => {
            &&& y == area.y
            &&& area.x <= x
            &&& x + text.len() <= area.x + area.width
        },
        _ => false,
    }
}

/// The style of the title of menu `k`: focused when it is the open menu.
pub open spec fn title_role(opened: Option<usize>, k: int) -> StyleRole {
    if opened == Some(k as usize) {
        StyleRole::MenuBarFocused
    } else {
        StyleRole::MenuBar
    }
}

/// What the menu bar line draws for its first `k` menus: the whole first line of the area
/// cleared in the bar style, then each title that fits, and a space after every title but
/// the last where that space is still inside the area.
pub open spec fn bar_ops(menus: Seq<Menu>, opened: Option<usize>, area: Rect, k: int) -> Seq<
    OpView,
>
    decreases k,
{
    if k <= 0 {
        seq![
            OpView::Fill {
                area: Rect { x: area.x, y: area.y, width: area.width, height: 1 },
                role: StyleRole::MenuBar,
            },
        ]
    } else {
        let x = bar_x(menus, area, k - 1);
        let fits = x + title_cells(menus[k - 1]) <= area.x + area.width;
        let x1 = bar_title_end(menus, area, k);
        let title = if fits {
            seq![
                OpView::Text {
                    x: x as u16,
                    y: area.y,
                    text: encode_utf8(title_text(menus[k - 1].title@)),
                    role: title_role(opened, k - 1),
                    underlined: false,
                },
            ]
        } else {
            seq![]
        };
        let space = if bar_space_drawn(menus, area, k) {
            seq![
                OpView::Text {
                    x: x1 as u16,
                    y: area.y,
                    text: encode_utf8(seq![' ']),
                    role: StyleRole::MenuBar,
                    underlined: false,
                },
            ]
        } else {
            seq![]
        };
        bar_ops(menus, opened, area, k - 1) + title + space
    }
}

impl MenuBar {
    /// Lays out the menu bar line: the first line of the area in the bar style, with the
    /// menu titles from one cell in from the left, a space after each but the last, and
    /// the open menu's title in the focused style. A title that does not fit is skipped,
    /// and so is a space that would fall right of the area: nothing is drawn outside the
    /// first line of the area.
    pub fn render_menu_bar(&self, area: Rect) -> (r: Vec<DrawOp>)
        requires
            bar_fits(self.menus@, area),
        ensures
            ops_view(r@) == bar_ops(self.menus@, self.opened_menu, area, self.menus@.len() as int),
            titles_within_cell_range(self.menus@) ==> forall|i: int|
                #![trigger r@[i]]
                0 <= i < r@.len() ==> draws_within_first_row(r@[i]@, area),
    {
        let mut ops: Vec<DrawOp> = Vec::new();
        push_op(
            &mut ops,
            DrawOp::Fill {
                area: Rect { x: area.x, y: area.y, width: area.width, height: 1 },
                role: StyleRole::MenuBar,
            },
        );
        let mut x_offset: u16 = area.x + 1;
        let n = self.menus.len();
        let mut index: usize = 0;
        while index < n
            invariant
                index <= n,
                n == self.menus@.len(),
                bar_fits(self.menus@, area),
                x_offset == bar_x(self.menus@, area, index as int),
                ops_view(ops@) == bar_ops(self.menus@, self.opened_menu, area, index as int),
            decreases n - index,
        {
            let role = match self.opened_menu {
                Some(o) => if o == index {
                    StyleRole::MenuBarFocused
                } else {
                    StyleRole::MenuBar
                },
                None => StyleRole::MenuBar,
            };
            let menu_text = menu_title_text(self.menus[index].title.as_str());
            let w = menu_text.as_str().len() as u16;
            if x_offset + w <= area.x + area.width {
                push_op(
                    &mut ops,
                    DrawOp::Text {
                        x: x_offset,
                        y: area.y,
                        text: menu_text,
                        role,
                        underlined: false,
                    },
                );
                x_offset = x_offset + w;
            }
            if index < n - 1 && x_offset < area.x + area.width {
                let space = " ".to_owned();
                proof {
                    reveal_strlit(" ");
                    assert(space@ =~= seq![' ']);
                }
                push_op(
                    &mut ops,
                    DrawOp::Text {
                        x: x_offset,
                        y: area.y,
                        text: space,
                        role: StyleRole::MenuBar,
                        underlined: false,
                    },
                );
                x_offset = x_offset + 1;
            }
            index = index + 1;
        }
        proof {
            if titles_within_cell_range(self.menus@) {
                law_menu_bar_draws_only_first_row(self.menus@, self.opened_menu, area, n as int);
                assert forall|i: int| #![trigger ops@[i]] 0 <= i < ops@.len() implies draws_within_first_row(
                    ops@[i]@,
                    area,
                ) by {
                    assert(ops_view(ops@)[i] == ops@[i]@);
                }
            }
        }
        ops
    }
}

// ---------------------------------------------------------------------------
// Finding the hotkey in a label
// ---------------------------------------------------------------------------

/// The lowercase form of a string, as `str::to_lowercase` computes it.
pub uninterp spec fn str_lowercase(s: Seq<char>) -> Seq<char>;

/// The lowercase form of a character written out as a string, as `char::to_lowercase`
/// computes it.
pub uninterp spec fn char_lowercase(c: char) -> Seq<char>;

/// Whether a character is ASCII.
pub open spec fn is_ascii_char(c: char) -> bool {
    c <= '\u{7f}'
}

/// The ASCII lowercase of a character: `A` to `Z` become `a` to `z`; every other
/// character stays as it is.
pub open spec fn ascii_lower_char(c: char) -> char {
    if 'A' <= c <= 'Z' {
        ((c as u32) + 32) as char
    } else {
        c
    }
}

/// The ASCII lowercase of a string, character by character.
pub open spec fn ascii_lower(s: Seq<char>) -> Seq<char> {
    s.map_values(|c: char| ascii_lower_char(c))
}

/// Lowercases a string.
///
/// Calls `str::to_lowercase`, which lowercases by the Unicode lowercase mapping; the
/// result is named `str_lowercase` of the string, a function of the string alone (the
/// Unicode tables of std). On ASCII the mapping takes `A` to `Z` to `a` to `z` and keeps
/// every other character, one character for one; beyond ASCII nothing more is stated.
#[verifier::external_body]
fn lowercase_str(s: &str) -> (r: String)
    ensures
        r@ == str_lowercase(s@),
        vstd::utf8::is_ascii_chars(s@) ==> r@ == ascii_lower(s@),
{
    s.to_lowercase()
}

/// Lowercases a character, into a string.
///
/// Calls `char::to_lowercase` and collects the characters it yields into a `String`; the
/// result is named `char_lowercase` of the character. For an ASCII character the mapping
/// yields its ASCII lowercase, one character; beyond ASCII nothing more is stated.
#[verifier::external_body]
fn lowercase_char(c: char) -> (r: String)
    ensures
        r@ == char_lowercase(c),
        is_ascii_char(c) ==> r@ == seq![ascii_lower_char(c)],
{
    c.to_lowercase().to_string()
}

/// `needle` occurs in `hay` at byte `i`.
pub open spec fn occurs_at(hay: Seq<u8>, needle: Seq<u8>, i: int) -> bool {
    &&& 0 <= i
    &&& i + needle.len() <= hay.len()
    &&& hay.subrange(i, i + needle.len()) == needle
}

/// `needle` occurs in `hay` at byte `i` and nowhere before.
pub open spec fn first_occurrence(hay: Seq<u8>, needle: Seq<u8>, i: int) -> bool {
    &&& occurs_at(hay, needle, i)
    &&& forall|j: int| 0 <= j < i ==> !occurs_at(hay, needle, j)
}

/// The byte index of the first occurrence of `needle` in `hay`, or `None` when it does not
/// occur.
pub open spec fn first_match(hay: Seq<u8>, needle: Seq<u8>) -> Option<usize> {
    if exists|i: usize| first_occurrence(hay, needle, i as int) {
        Some(choose|i: usize| first_occurrence(hay, needle, i as int))
    } else {
        None
    }
}

/// Finds `needle` in `hay`, as `str::find` with a string pattern does: the byte index of
/// the first place where the bytes of `needle` occur in those of `hay`, or `None` when
/// they occur nowhere.
fn find_str(hay: &str, needle: &str) -> (r: Option<usize>)
    ensures
        match r {
            Some(i) => first_occurrence(encode_utf8(hay@), encode_utf8(needle@), i as int),
            None => forall|j: int| !occurs_at(encode_utf8(hay@), encode_utf8(needle@), j),
        },
{
    let h = hay.as_bytes();
    let n = needle.as_bytes();
    let ghost hb = encode_utf8(hay@);
    let ghost nb = encode_utf8(needle@);
    if n.len() == 0 {
        proof {
            assert(hb.subrange(0, 0) =~= nb);
        }
        return Some(0);
    }
    if n.len() > h.len() {
        return None;
    }
    let last = h.len() - n.len();
    let mut i: usize = 0;
    while i <= last
        invariant
            hb == encode_utf8(hay@),
            nb == encode_utf8(needle@),
            h@ == hb,
            n@ == nb,
            0 < n@.len() <= h@.len(),
            h@.len() == h.len(),
            last == h@.len() - n@.len(),
            i <= last + 1,
            forall|j: int| 0 <= j < i ==> !occurs_at(hb, nb, j),
        decreases last + 1 - i,
    {
        let mut k: usize = 0;
        let mut same = true;
        while k < n.len() && same
            invariant
                hb == encode_utf8(hay@),
                nb == encode_utf8(needle@),
                h@ == hb,
                n@ == nb,
                0 < n@.len() <= h@.len(),
                h@.len() == h.len(),
                last == h@.len() - n@.len(),
                i <= last,
                forall|j: int| 0 <= j < i ==> !occurs_at(hb, nb, j),
                k <= n@.len(),
                same ==> forall|t: int| 0 <= t < k ==> hb[i + t] == nb[t],
                !same ==> exists|t: int| 0 <= t < n@.len() && hb[i + t] != nb[t],
            decreases n@.len() - k,
        {
            if h[i + k] != n[k] {
                same = false;
            }
            k = k + 1;
        }
        if same {
            proof {
                assert(hb.subrange(i as int, i + nb.len()) =~= nb);
            }
            return Some(i);
        }
        proof {
            let t = choose|t: int| 0 <= t < n@.len() && hb[i + t] != nb[t];
            if hb.subrange(i as int, i + nb.len()) == nb {
                assert(hb.subrange(i as int, i + nb.len())[t] == nb[t]);
            }
        }
        i = i + 1;
    }
    None
}

proof fn lemma_first_match(hay: Seq<u8>, needle: Seq<u8>, r: Option<usize>)
    requires
        match r {
            Some(i) => first_occurrence(hay, needle, i as int),
            None => forall|j: int| !occurs_at(hay, needle, j),
        },
    ensures
        r == first_match(hay, needle),
{
    if let Some(i) = r {
        let c = choose|k: usize| first_occurrence(hay, needle, k as int);
        assert(first_occurrence(hay, needle, c as int));
    }
}

/// Where the layout underlines the hotkey of a label: the byte index of the first
/// occurrence of the lowercase hotkey in the lowercase label; none without a hotkey.
pub open spec fn hotkey_pos(label: Seq<char>, hotkey: Option<char>) -> Option<usize> {
    match hotkey {
        Some(h) => first_match(encode_utf8(str_lowercase(label)), encode_utf8(char_lowercase(h))),
        None => None,
    }
}

/// `i` is the first index of `label` whose character is `h`, ASCII case ignored.
pub open spec fn first_ascii_match(label: Seq<char>, h: char, i: int) -> bool {
    &&& 0 <= i < label.len()
    &&& ascii_lower_char(label[i]) == ascii_lower_char(h)
    &&& forall|j: int| 0 <= j < i ==> ascii_lower_char(label[j]) != ascii_lower_char(h)
}

/// A label of ASCII characters, with no hotkey or an ASCII one.
pub open spec fn ascii_label(label: Seq<char>, hotkey: Option<char>) -> bool {
    &&& vstd::utf8::is_ascii_chars(label)
    &&& hotkey matches Some(h) ==> is_ascii_char(h)
}

/// Where the hotkey of an ASCII label is: the first index whose character is the hotkey,
/// ASCII case ignored; none without a hotkey or where it does not occur.
pub open spec fn ascii_hotkey_pos(label: Seq<char>, hotkey: Option<char>) -> Option<usize> {
    match hotkey {
        Some(h) => if exists|i: usize| first_ascii_match(label, h, i as int) {
            Some(choose|i: usize| first_ascii_match(label, h, i as int))
        } else {
            None
        },
        None => None,
    }
}

/// Within ASCII, the first occurrence of the lowercase hotkey's bytes in the lowercase
/// label's bytes is the first index whose character is the hotkey, ASCII case ignored.
proof fn lemma_ascii_first_match(label: Seq<char>, h: char, r: Option<usize>)
    requires
        ascii_label(label, Some(h)),
        r == first_match(encode_utf8(ascii_lower(label)), encode_utf8(seq![ascii_lower_char(h)])),
    ensures
        r == ascii_hotkey_pos(label, Some(h)),
{
    let lower = ascii_lower(label);
    let key = seq![ascii_lower_char(h)];
    let lk = ascii_lower_char(h);
    assert(vstd::utf8::is_ascii_chars(lower));
    assert(vstd::utf8::is_ascii_chars(key));
    vstd::utf8::is_ascii_chars_encode_utf8(lower);
    vstd::utf8::is_ascii_chars_encode_utf8(key);
    let hay = encode_utf8(lower);
    let needle = encode_utf8(key);
    assert(needle.len() == 1);
    assert forall|i: int| occurs_at(hay, needle, i) <==> (0 <= i < label.len() && ascii_lower_char(label[i]) == lk) by {
        if 0 <= i < label.len() {
            assert(hay[i] == lower[i] as u8);
            assert(needle[0] == lk as u8);
            if hay.subrange(i, i + 1) == needle {
                assert(hay.subrange(i, i + 1)[0] == needle[0]);
            }
            if lower[i] == lk {
                assert(hay.subrange(i, i + 1) =~= needle);
            }
        }
    }
    assert forall|i: int| first_occurrence(hay, needle, i) <==> first_ascii_match(label, h, i) by {
        if first_ascii_match(label, h, i) {
            assert forall|j: int| 0 <= j < i implies !occurs_at(hay, needle, j) by {
                assert(ascii_lower_char(label[j]) != lk);
            }
        }
        if first_occurrence(hay, needle, i) {
            assert forall|j: int| 0 <= j < i implies ascii_lower_char(label[j]) != lk by {
                assert(!occurs_at(hay, needle, j));
            }
        }
    }
    if let Some(p) = r {
        let q = choose|i: usize| first_ascii_match(label, h, i as int);
        assert(first_occurrence(hay, needle, p as int));
        assert(first_ascii_match(label, h, p as int));
        assert(first_ascii_match(label, h, q as int));
        if q < p {
            assert(ascii_lower_char(label[q as int]) != lk);
        }
        if p < q {
            assert(ascii_lower_char(label[p as int]) != lk);
        }
    } else {
        if exists|i: usize| first_ascii_match(label, h, i as int) {
            let q = choose|i: usize| first_ascii_match(label, h, i as int);
            assert(first_occurrence(hay, needle, q as int));
        }
    }
}

/// Finds where the hotkey of a label is underlined: the byte index of the first occurrence
/// of the lowercase hotkey in the lowercase label, if it occurs. For an ASCII label and
/// hotkey that is the first index whose character is the hotkey, ASCII case ignored.
pub fn hotkey_position(label: &str, hotkey: Option<char>) -> (r: Option<usize>)
    ensures
        r == hotkey_pos(label@, hotkey),
        ascii_label(label@, hotkey) ==> r == ascii_hotkey_pos(label@, hotkey),
{
    match hotkey {
        Some(h) => {
            let lower_label = lowercase_str(label);
            let lower_key = lowercase_char(h);
            let r = find_str(lower_label.as_str(), lower_key.as_str());
            proof {
                lemma_first_match(encode_utf8(lower_label@), encode_utf8(lower_key@), r);
                if ascii_label(label@, hotkey) {
                    lemma_ascii_first_match(label@, h, r);
                }
            }
            r
        },
        None => None,
    }
}

// ---------------------------------------------------------------------------
// Labels with an underlined hotkey
// ---------------------------------------------------------------------------

/// Whether writing `label` from column `x`, split around the byte `pos` of its hotkey if
/// any, cuts it only at character boundaries and stays in the cell range.
pub open spec fn label_ok(label: Seq<char>, pos: Option<usize>, x: int) -> bool {
    let b = encode_utf8(label);
    match pos {
        None => x + cells_of(label) <= max_cell(),
        Some(p) => {
            &&& p + 1 <= b.len()
            &&& is_char_boundary(b, p as int)
            &&& is_char_boundary(b, p + 1)
            &&& x + (p as u16) + 1 <= max_cell()
            &&& x + (p as u16) + 1 + ((b.len() - p - 1) as usize as u16) <= max_cell()
        },
    }
}

/// What writing a label draws: the whole label; or, around a hotkey at byte `pos`, the text
/// before it, the one byte of the hotkey underlined, and the text after it, each starting
/// where the previous one's byte count ends.
pub open spec fn label_ops(label: Seq<char>, pos: Option<usize>, x: int, y: u16, role: StyleRole) -> Seq<
    OpView,
> {
    let b = encode_utf8(label);
    match pos {
        None => seq![OpView::Text { x: x as u16, y, text: b, role, underlined: false }],
        Some(p) => {
            let x1 = x + (p as u16);
            seq![
                OpView::Text {
                    x: x as u16,
                    y,
                    text: b.subrange(0, p as int),
                    role,
                    underlined: false,
                },
                OpView::Text {
                    x: x1 as u16,
                    y,
                    text: b.subrange(p as int, p + 1),
                    role,
                    underlined: true,
                },
                OpView::Text {
                    x: (x1 + 1) as u16,
                    y,
                    text: b.subrange(p + 1, b.len() as int),
                    role,
                    underlined: false,
                },
            ]
        },
    }
}

/// The column after a written label.
pub open spec fn label_end(label: Seq<char>, pos: Option<usize>, x: int) -> int {
    let b = encode_utf8(label);
    match pos {
        None => x + cells_of(label),
        Some(p) => x + (p as u16) + 1 + ((b.len() - p - 1) as usize as u16),
    }
}

/// Past a character boundary `p`, the boundaries of the rest are those of the whole, moved.
proof fn lemma_rest_boundary(b: Seq<u8>, p: int)
    requires
        vstd::utf8::valid_utf8(b),
        0 <= p,
        is_char_boundary(b, p),
    ensures
        is_char_boundary(b.subrange(p, b.len() as int), 1) <==> (p + 1 <= b.len()
            && is_char_boundary(b, p + 1)),
{
    vstd::utf8::valid_utf8_split(b, p);
    if p >= b.len() {
        assert(p == b.len()) by {
            reveal_with_fuel(is_char_boundary, 2);
        }
        let r = b.subrange(p, b.len() as int);
        reveal_with_fuel(is_char_boundary, 2);
    } else {
        let r = b.subrange(p, b.len() as int);
        if p + 1 == b.len() {
            vstd::utf8::is_char_boundary_start_end_of_seq(r);
            vstd::utf8::is_char_boundary_start_end_of_seq(b);
        } else {
            vstd::utf8::is_char_boundary_iff_not_is_continuation_byte(b, p + 1);
            vstd::utf8::is_char_boundary_iff_not_is_continuation_byte(r, 1);
        }
    }
}

/// Writes a label from column `x`, underlining the hotkey at byte `pos` if any; returns the
/// column after it.
fn write_label(ops: &mut Vec<DrawOp>, label: &str, pos: Option<usize>, x: u16, y: u16, role: StyleRole) -> (end: u16)
    requires
        label_ok(label@, pos, x as int),
    ensures
        ops_view(final(ops)@) == ops_view(old(ops)@) + label_ops(label@, pos, x as int, y, role),
        end == label_end(label@, pos, x as int),
{
    broadcast use vstd::utf8::encode_utf8_valid_utf8;

    match pos {
        Some(p) => {
            proof {
                lemma_rest_boundary(encode_utf8(label@), p as int);
            }
            let (before, rest) = label.split_at(p);
            let (key, after) = rest.split_at(1);
            let before_cells = before.len() as u16;
            push_op(
                ops,
                DrawOp::Text { x, y, text: before.to_owned(), role, underlined: false },
            );
            let x1 = x + before_cells;
            push_op(ops, DrawOp::Text { x: x1, y, text: key.to_owned(), role, underlined: true });
            let x2 = x1 + 1;
            let after_cells = after.len() as u16;
            push_op(
                ops,
                DrawOp::Text { x: x2, y, text: after.to_owned(), role, underlined: false },
            );
            assert(encode_utf8(key@) =~= encode_utf8(label@).subrange(p as int, p + 1));
            assert(encode_utf8(after@) =~= encode_utf8(label@).subrange(p + 1, encode_utf8(label@).len() as int));
            x2 + after_cells
        },
        None => {
            let cells = label.len() as u16;
            push_op(ops, DrawOp::Text { x, y, text: label.to_owned(), role, underlined: false });
            x + cells
        },
    }
}

/// Tells whether a label can be written from column `x` around the hotkey at byte `pos`,
/// and writes it if so; returns the column after it. Nothing is written, and `None` comes
/// back, where the hotkey byte is not a whole character or a column leaves the cell range.
pub fn try_write_label(ops: &mut Vec<DrawOp>, label: &str, pos: Option<usize>, x: u16, y: u16, role: StyleRole) -> (end: Option<u16>)
    ensures
        end is Some <==> label_ok(label@, pos, x as int),
        end matches Some(e) ==> e == label_end(label@, pos, x as int) && ops_view(final(ops)@)
            == ops_view(old(ops)@) + label_ops(label@, pos, x as int, y, role),
        end is None ==> final(ops)@ == old(ops)@,
{
    broadcast use vstd::utf8::encode_utf8_valid_utf8;

    match pos {
        None => {
            let cells = label.len() as u16;
            if (x as u32) + (cells as u32) > 65535 {
                return None;
            }
        },
        Some(p) => {
            if !label.is_char_boundary(p) {
                return None;
            }
            proof {
                lemma_rest_boundary(encode_utf8(label@), p as int);
            }
            let (_before, rest) = label.split_at(p);
            if !rest.is_char_boundary(1) {
                return None;
            }
            let (_key, after) = rest.split_at(1);
            let after_cells = after.len() as u16;
            let before_cells = p as u16;
            if (x as u32) + (before_cells as u32) + 1 + (after_cells as u32) > 65535 {
                return None;
            }
        },
    }
    Some(write_label(ops, label, pos, x, y, role))
}

/// The style of an item line: focused, else normal or disabled.
pub open spec fn item_role(focused: bool, enabled: bool) -> StyleRole {
    if focused {
        StyleRole::ItemFocused
    } else if enabled {
        StyleRole::Item
    } else {
        StyleRole::ItemDisabled
    }
}

/// The column at which a shortcut of `s` is written on a line of `width` cells from `x`:
/// flush with the right end of the line.
pub open spec fn shortcut_x(s: Seq<char>, x: int, width: u16) -> int {
    x + sat_sub(width, cells_of(s) as u16)
}

/// Whether `op` writes underlined text.
pub open spec fn is_underlined(op: OpView) -> bool {
    match op {
        OpView::Text { underlined, .. } => underlined,
        _ => false,
    }
}

/// Among `ops`, exactly one writes underlined text: one byte, at column `col` of row `y`.
pub open spec fn underlined_once_at(ops: Seq<OpView>, col: int, y: u16) -> bool {
    exists|k: int|
        #![trigger ops[k]]
        0 <= k < ops.len() && (ops[k] matches OpView::Text { x, y: ty, text, underlined, .. } && underlined
            && x == col && ty == y && text.len() == 1) && forall|j: int|
            #![trigger ops[j]]
            0 <= j < ops.len() && j != k ==> !is_underlined(ops[j])
}

/// None of `ops` writes underlined text.
pub open spec fn no_underline(ops: Seq<OpView>) -> bool {
    forall|j: int| #![trigger ops[j]] 0 <= j < ops.len() ==> !is_underlined(ops[j])
}

/// Whether the line of an action can be laid out from column `x`.
pub open spec fn action_line_ok(a: ActionItem, x: int, width: u16) -> bool {
    &&& label_ok(a.label@, hotkey_pos(a.label@, a.hotkey), x)
    &&& a.shortcut matches Some(s) ==> shortcut_x(s@, x, width) <= max_cell()
}

/// What the line of an action draws: its background, its label with the hotkey underlined,
/// and its shortcut at the right end when that leaves the label whole.
pub open spec fn action_line_ops(a: ActionItem, x: int, y: u16, width: u16, role: StyleRole) -> Seq<
    OpView,
> {
    let pos = hotkey_pos(a.label@, a.hotkey);
    let end = label_end(a.label@, pos, x);
    let shortcut = match a.shortcut {
        Some(s) => if shortcut_x(s@, x, width) > end {
            seq![
                OpView::Text {
                    x: shortcut_x(s@, x, width) as u16,
                    y,
                    text: encode_utf8(s@),
                    role,
                    underlined: false,
                },
            ]
        } else {
            seq![]
        },
        None => seq![],
    };
    seq![OpView::FillRow { x: x as u16, y, width, role }] + label_ops(a.label@, pos, x, y, role)
        + shortcut
}

/// The arrow that marks a submenu.
pub open spec fn arrow_text() -> Seq<char> {
    seq!['\u{25BA}']
}

/// The column of the arrow of a submenu line: two cells from the right end of the line.
pub open spec fn arrow_x(x: int, width: u16) -> int {
    x + sat_sub(width, 2)
}

/// Whether the line of a submenu can be laid out from column `x`.
pub open spec fn submenu_line_ok(s: SubMenuItem, x: int, width: u16) -> bool {
    &&& arrow_x(x, width) <= max_cell()
    &&& label_ok(s.label@, hotkey_pos(s.label@, s.hotkey), x)
}

/// What the line of a submenu draws: its background, its label with the hotkey underlined,
/// and the arrow two cells from the right end when that leaves the label whole.
pub open spec fn submenu_line_ops(s: SubMenuItem, x: int, y: u16, width: u16, role: StyleRole) -> Seq<
    OpView,
> {
    let pos = hotkey_pos(s.label@, s.hotkey);
    let end = label_end(s.label@, pos, x);
    let arrow = if arrow_x(x, width) > end {
        seq![
            OpView::Text {
                x: arrow_x(x, width) as u16,
                y,
                text: encode_utf8(arrow_text()),
                role,
                underlined: false,
            },
        ]
    } else {
        seq![]
    };
    seq![OpView::FillRow { x: x as u16, y, width, role }] + label_ops(s.label@, pos, x, y, role)
        + arrow
}

/// Whether the line of an item can be laid out from column `x`.
pub open spec fn item_line_ok(item: MenuItem, x: int, width: u16) -> bool {
    match item {
        MenuItem::Action(a) => action_line_ok(a, x, width),
        MenuItem::SubMenu(s) => submenu_line_ok(s, x, width),
        MenuItem::Separator(_) => true,
    }
}

/// What the line of an item draws, in the focused, normal or disabled style; nothing for a
/// separator (the dropdown draws it).
pub open spec fn item_line_ops(item: MenuItem, x: int, y: u16, width: u16, focused: bool) -> Seq<OpView> {
    match item {
        MenuItem::Action(a) => action_line_ops(a, x, y, width, item_role(focused, a.enabled)),
        MenuItem::SubMenu(s) => submenu_line_ops(s, x, y, width, item_role(focused, s.enabled)),
        MenuItem::Separator(_) => seq![],
    }
}

impl MenuBar {
    /// Lays out the line of an action at (`x`, `y`), `width` cells wide, in `style`: the
    /// background, the label with its hotkey underlined, and the shortcut flush right.
    /// `None` when the hotkey would split a character or a column leaves the cell range.
    /// For an ASCII label and hotkey the underline is at the first character that is the
    /// hotkey, ASCII case ignored.
    pub fn render_action_item(&self, action: &ActionItem, x: u16, y: u16, width: u16, style: StyleRole) -> (r:
        Option<Vec<DrawOp>>)
        ensures
            r is Some <==> action_line_ok(*action, x as int, width),
            r matches Some(ops) ==> ops_view(ops@) == action_line_ops(
                *action,
                x as int,
                y,
                width,
                style,
            ),
            ascii_label(action.label@, action.hotkey) ==> hotkey_pos(action.label@, action.hotkey)
                == ascii_hotkey_pos(action.label@, action.hotkey),
            r matches Some(ops) ==> (ascii_label(action.label@, action.hotkey) ==> match ascii_hotkey_pos(
                action.label@,
                action.hotkey,
            ) {
                Some(p) => underlined_once_at(ops_view(ops@), x + (p as u16), y),
                None => no_underline(ops_view(ops@)),
            }),
    {
        let pos = hotkey_position(action.label.as_str(), action.hotkey);
        let mut ops: Vec<DrawOp> = Vec::new();
        let shortcut_col: Option<u16> = match &action.shortcut {
            Some(s) => {
                let cells = s.as_str().len() as u16;
                let room = width.saturating_sub(cells);
                if (x as u32) + (room as u32) > 65535 {
                    return None;
                }
                Some(x + room)
            },
            None => None,
        };
        push_op(&mut ops, DrawOp::FillRow { x, y, width, role: style });
        let end = match try_write_label(&mut ops, action.label.as_str(), pos, x, y, style) {
            Some(e) => e,
            None => return None,
        };
        match &action.shortcut {
            Some(s) => {
                let sx = shortcut_col.unwrap();
                if sx > end {
                    push_op(
                        &mut ops,
                        DrawOp::Text { x: sx, y, text: s.clone(), role: style, underlined: false },
                    );
                }
            },
            None => {},
        }
        proof {
            assert(ops_view(ops@) =~= action_line_ops(*action, x as int, y, width, style));
            law_action_line_underlines_hotkey(*action, x as int, y, width, style);
        }
        Some(ops)
    }

    /// Lays out the line of a submenu at (`x`, `y`), `width` cells wide, in `style`: the
    /// background, the label with its hotkey underlined, and the arrow two cells from the
    /// right end. `None` when the hotkey would split a character or a column leaves the cell
    /// range. For an ASCII label and hotkey the underline is at the first character that is
    /// the hotkey, ASCII case ignored.
    pub fn render_submenu_item(&self, submenu: &SubMenuItem, x: u16, y: u16, width: u16, style: StyleRole) -> (r:
        Option<Vec<DrawOp>>)
        ensures
            r is Some <==> submenu_line_ok(*submenu, x as int, width),
            r matches Some(ops) ==> ops_view(ops@) == submenu_line_ops(
                *submenu,
                x as int,
                y,
                width,
                style,
            ),
            ascii_label(submenu.label@, submenu.hotkey) ==> hotkey_pos(submenu.label@, submenu.hotkey)
                == ascii_hotkey_pos(submenu.label@, submenu.hotkey),
            r matches Some(ops) ==> (ascii_label(submenu.label@, submenu.hotkey) ==> match ascii_hotkey_pos(
                submenu.label@,
                submenu.hotkey,
            ) {
                Some(p) => underlined_once_at(ops_view(ops@), x + (p as u16), y),
                None => no_underline(ops_view(ops@)),
            }),
    {
        let pos = hotkey_position(submenu.label.as_str(), submenu.hotkey);
        let mut ops: Vec<DrawOp> = Vec::new();
        let room = width.saturating_sub(2);
        if (x as u32) + (room as u32) > 65535 {
            return None;
        }
        let ax = x + room;
        push_op(&mut ops, DrawOp::FillRow { x, y, width, role: style });
        let end = match try_write_label(&mut ops, submenu.label.as_str(), pos, x, y, style) {
            Some(e) => e,
            None => return None,
        };
        if ax > end {
            let arrow = "\u{25BA}".to_owned();
            proof {
                reveal_strlit("\u{25BA}");
                assert(arrow@ =~= arrow_text());
            }
            push_op(&mut ops, DrawOp::Text { x: ax, y, text: arrow, role: style, underlined: false });
        }
        proof {
            assert(ops_view(ops@) =~= submenu_line_ops(*submenu, x as int, y, width, style));
            law_submenu_line_underlines_hotkey(*submenu, x as int, y, width, style);
        }
        Some(ops)
    }

    /// Lays out the line of an item in the focused, normal or disabled style; a separator
    /// draws nothing here. `None` when the hotkey would split a character or a column leaves
    /// the cell range.
    pub fn render_menu_item(&self, item: &MenuItem, x: u16, y: u16, width: u16, is_focused: bool) -> (r:
        Option<Vec<DrawOp>>)
        ensures
            r is Some <==> item_line_ok(*item, x as int, width),
            r matches Some(ops) ==> ops_view(ops@) == item_line_ops(
                *item,
                x as int,
                y,
                width,
                is_focused,
            ),
    {
        match item {
            MenuItem::Action(action) => {
                let style = if is_focused {
                    StyleRole::ItemFocused
                } else if action.enabled {
                    StyleRole::Item
                } else {
                    StyleRole::ItemDisabled
                };
                self.render_action_item(action, x, y, width, style)
            },
            MenuItem::Separator(_) => {
                let ops: Vec<DrawOp> = Vec::new();
                Some(ops)
            },
            MenuItem::SubMenu(submenu) => {
                let style = if is_focused {
                    StyleRole::ItemFocused
                } else if submenu.enabled {
                    StyleRole::Item
                } else {
                    StyleRole::ItemDisabled
                };
                self.render_submenu_item(submenu, x, y, width, style)
            },
        }
    }
}

// ---------------------------------------------------------------------------
// Dropdowns
// ---------------------------------------------------------------------------

/// How many item rows a dropdown draws: one per item, as many as fit in its content area.
pub open spec fn rows_drawn(items: Seq<MenuItem>, content: Rect) -> int {
    min_int(items.len() as int, content.height as int)
}

/// Whether row `i` of a dropdown, holding `item`, can be laid out.
pub open spec fn row_ok(item: MenuItem, i: int, content: Rect) -> bool {
    &&& content.y + i <= max_cell()
    &&& item_line_ok(item, content.x as int, content.width)
}

/// What row `i` of a dropdown over `area` draws: a separator line across the whole dropdown
/// for a separator, else the item's line inside the borders, focused when it is the focused
/// item.
pub open spec fn row_ops(item: MenuItem, i: int, focused: Option<usize>, area: Rect, content: Rect) -> Seq<
    OpView,
> {
    let y = (content.y + i) as u16;
    if item is Separator {
        seq![OpView::SeparatorLine { x: area.x, y, width: area.width }]
    } else {
        item_line_ops(item, content.x as int, y, content.width, focused == Some(i as usize))
    }
}

/// What the first `k` rows of a submenu's dropdown draw.
pub open spec fn submenu_rows_ops(
    items: Seq<MenuItem>,
    focused: Option<usize>,
    area: Rect,
    content: Rect,
    k: int,
) -> Seq<OpView>
    decreases k,
{
    if k <= 0 {
        seq![]
    } else {
        submenu_rows_ops(items, focused, area, content, k - 1) + row_ops(
            items[k - 1],
            k - 1,
            focused,
            area,
            content,
        )
    }
}

/// Whether the dropdown of a submenu can be laid out over `area`.
pub open spec fn submenu_dropdown_ok(s: SubMenuItem, area: Rect) -> bool {
    let content = bordered_inner_spec(area);
    forall|i: int|
        #![trigger s.items@[i]]
        0 <= i < rows_drawn(s.items@, content) ==> row_ok(s.items@[i], i, content)
}

/// What the dropdown of a submenu draws over `area`: the area cleared, its border, and one
/// row per item that fits inside the border.
pub open spec fn submenu_dropdown_ops(s: SubMenuItem, area: Rect) -> Seq<OpView> {
    let content = bordered_inner_spec(area);
    seq![OpView::Clear { area }, OpView::Border { area }] + submenu_rows_ops(
        s.items@,
        s.focused_item,
        area,
        content,
        rows_drawn(s.items@, content),
    )
}

/// Whether row `i` of the dropdown of a menu, holding `item`, can be laid out, with the
/// dropdown of an open submenu next to it.
pub open spec fn menu_row_ok(item: MenuItem, i: int, area: Rect, content: Rect) -> bool {
    &&& row_ok(item, i, content)
    &&& match item {
        MenuItem::SubMenu(s) => s.is_open ==> {
            &&& submenu_area_ok(area, s)
            &&& submenu_dropdown_ok(s, submenu_area_spec(area, (content.y + i) as u16, s))
        },
        _ => true,
    }
}

/// What row `i` of the dropdown of a menu draws: the row, then, for an open submenu, its
/// dropdown to the right of this one at the row's height.
pub open spec fn menu_row_ops(item: MenuItem, i: int, focused: Option<usize>, area: Rect, content: Rect) -> Seq<
    OpView,
> {
    row_ops(item, i, focused, area, content) + match item {
        MenuItem::SubMenu(s) => if s.is_open {
            submenu_dropdown_ops(s, submenu_area_spec(area, (content.y + i) as u16, s))
        } else {
            seq![]
        },
        _ => seq![],
    }
}

/// What the first `k` rows of the dropdown of a menu draw.
pub open spec fn menu_rows_ops(
    items: Seq<MenuItem>,
    focused: Option<usize>,
    area: Rect,
    content: Rect,
    k: int,
) -> Seq<OpView>
    decreases k,
{
    if k <= 0 {
        seq![]
    } else {
        menu_rows_ops(items, focused, area, content, k - 1) + menu_row_ops(
            items[k - 1],
            k - 1,
            focused,
            area,
            content,
        )
    }
}

/// Whether the dropdown of a menu can be laid out over `area`.
pub open spec fn dropdown_ok(menu: Menu, area: Rect) -> bool {
    let content = bordered_inner_spec(area);
    forall|i: int|
        #![trigger menu.items@[i]]
        0 <= i < rows_drawn(menu.items@, content) ==> menu_row_ok(menu.items@[i], i, area, content)
}

/// What the dropdown of a menu draws over `area`: the area cleared, its border, and one row
/// per item that fits inside the border, each open submenu's dropdown after its row.
pub open spec fn dropdown_ops(menu: Menu, area: Rect) -> Seq<OpView> {
    let content = bordered_inner_spec(area);
    seq![OpView::Clear { area }, OpView::Border { area }] + menu_rows_ops(
        menu.items@,
        menu.focused_item,
        area,
        content,
        rows_drawn(menu.items@, content),
    )
}

/// The number of rows to draw: the items, as many as fit in the content's height.
fn count_rows(len: usize, content: Rect) -> (r: usize)
    ensures
        r == rows_drawn_len(len as int, content),
{
    if len < content.height as usize {
        len
    } else {
        content.height as usize
    }
}

/// `rows_drawn` for a list of `len` items.
pub open spec fn rows_drawn_len(len: int, content: Rect) -> int {
    min_int(len, content.height as int)
}

impl MenuBar {
    /// Lays out one row of a dropdown: a separator line across the dropdown, or the item's
    /// line inside the border.
    fn render_row(
        &self,
        item: &MenuItem,
        index: usize,
        focused: Option<usize>,
        area: Rect,
        content: Rect,
    ) -> (r: Option<Vec<DrawOp>>)
        requires
            index <= u16::MAX,
        ensures
            r is Some <==> row_ok(*item, index as int, content),
            r matches Some(ops) ==> ops_view(ops@) == row_ops(
                *item,
                index as int,
                focused,
                area,
                content,
            ),
    {
        if (content.y as u32) + (index as u32) > 65535 {
            return None;
        }
        let y = content.y + index as u16;
        let is_focused = match focused {
            Some(f) => f == index,
            None => false,
        };
        match item {
            MenuItem::Separator(_) => {
                let mut ops: Vec<DrawOp> = Vec::new();
                push_op(&mut ops, DrawOp::SeparatorLine { x: area.x, y, width: area.width });
                Some(ops)
            },
            _ => self.render_menu_item(item, content.x, y, content.width, is_focused),
        }
    }

    /// Lays out the dropdown of an open submenu over `area`: clears it, draws its border and
    /// one row per item that fits inside, separators across the whole dropdown. Submenus
    /// nested in it are not drawn. `None` when a hotkey would split a character or a column
    /// leaves the cell range.
    pub fn render_submenu_dropdown(&self, submenu: &SubMenuItem, area: Rect) -> (r: Option<Vec<DrawOp>>)
        ensures
            r is Some <==> submenu_dropdown_ok(*submenu, area),
            r matches Some(ops) ==> ops_view(ops@) == submenu_dropdown_ops(*submenu, area),
    {
        let mut ops: Vec<DrawOp> = Vec::new();
        push_op(&mut ops, DrawOp::Clear { area });
        push_op(&mut ops, DrawOp::Border { area });
        let content = bordered_inner(area);
        let count = count_rows(submenu.items.len(), content);
        let ghost items = submenu.items@;
        assert(ops_view(ops@) =~= seq![OpView::Clear { area }, OpView::Border { area }]
            + submenu_rows_ops(items, submenu.focused_item, area, content, 0));
        let mut index: usize = 0;
        while index < count
            invariant
                index <= count,
                count == rows_drawn(items, content),
                items == submenu.items@,
                content == bordered_inner_spec(area),
                forall|i: int| #![trigger items[i]] 0 <= i < index ==> row_ok(items[i], i, content),
                ops_view(ops@) == seq![OpView::Clear { area }, OpView::Border { area }]
                    + submenu_rows_ops(items, submenu.focused_item, area, content, index as int),
            decreases count - index,
        {
            match self.render_row(&submenu.items[index], index, submenu.focused_item, area, content) {
                Some(more) => append_ops(&mut ops, more),
                None => {
                    return None;
                },
            }
            index = index + 1;
            assert(ops_view(ops@) =~= seq![OpView::Clear { area }, OpView::Border { area }]
                + submenu_rows_ops(items, submenu.focused_item, area, content, index as int));
        }
        Some(ops)
    }

    /// Lays out the dropdown of a menu over `area`: clears it, draws its border and one row
    /// per item that fits inside, separators across the whole dropdown, and, after the row of
    /// an open submenu, that submenu's dropdown to the right. `None` when a hotkey would
    /// split a character or a column leaves the cell range.
    pub fn render_dropdown(&self, menu: &Menu, area: Rect) -> (r: Option<Vec<DrawOp>>)
        ensures
            r is Some <==> dropdown_ok(*menu, area),
            r matches Some(ops) ==> ops_view(ops@) == dropdown_ops(*menu, area),
    {
        let mut ops: Vec<DrawOp> = Vec::new();
        push_op(&mut ops, DrawOp::Clear { area });
        push_op(&mut ops, DrawOp::Border { area });
        let content = bordered_inner(area);
        let count = count_rows(menu.items.len(), content);
        let ghost items = menu.items@;
        assert(ops_view(ops@) =~= seq![OpView::Clear { area }, OpView::Border { area }]
            + menu_rows_ops(items, menu.focused_item, area, content, 0));
        let mut index: usize = 0;
        while index < count
            invariant
                index <= count,
                count == rows_drawn(items, content),
                items == menu.items@,
                content == bordered_inner_spec(area),
                forall|i: int|
                    #![trigger items[i]]
                    0 <= i < index ==> menu_row_ok(items[i], i, area, content),
                ops_view(ops@) == seq![OpView::Clear { area }, OpView::Border { area }]
                    + menu_rows_ops(items, menu.focused_item, area, content, index as int),
            decreases count - index,
        {
            let item = &menu.items[index];
            match self.render_row(item, index, menu.focused_item, area, content) {
                Some(more) => append_ops(&mut ops, more),
                None => {
                    return None;
                },
            }
            match item {
                MenuItem::SubMenu(submenu) => {
                    if submenu.is_open {
                        let y = content.y + index as u16;
                        if (area.x as u32) + (area.width as u32) > 65535 || (content_width(
                            &submenu.items,
                        ) as u32) + 4 > 65535 || (submenu.items.len() as u16 as u32) + 2 > 65535 {
                            return None;
                        }
                        let submenu_area = self.calculate_submenu_area(area, content.x, y, submenu);
                        match self.render_submenu_dropdown(submenu, submenu_area) {
                            Some(more) => append_ops(&mut ops, more),
                            None => return None,
                        }
                    }
                },
                _ => {},
            }
            index = index + 1;
            assert(ops_view(ops@) =~= seq![OpView::Clear { area }, OpView::Border { area }]
                + menu_rows_ops(items, menu.focused_item, area, content, index as int));
        }
        Some(ops)
    }
}

// ---------------------------------------------------------------------------
// The whole menu bar
// ---------------------------------------------------------------------------

/// Whether the menu bar can be laid out in `area`: the bar line, and the dropdown of the
/// open menu if the open index points into the bar.
pub open spec fn render_ok(bar: MenuBar, area: Rect) -> bool {
    &&& match bar.opened_menu {
        Some(i) => i < bar.menus@.len() ==> {
            &&& dropdown_area_ok(bar.menus@, area, i as int)
            &&& dropdown_ok(bar.menus@[i as int], dropdown_area_spec(bar.menus@, area, i as int))
        },
        None => true,
    }
    &&& bar_fits(bar.menus@, area)
}

/// What the menu bar draws in `area`: first the dropdown of the open menu, if the open
/// index points into the bar, then the bar line over it.
pub open spec fn render_ops(bar: MenuBar, area: Rect) -> Seq<OpView> {
    let dropdown = match bar.opened_menu {
        Some(i) => if i < bar.menus@.len() {
            dropdown_ops(bar.menus@[i as int], dropdown_area_spec(bar.menus@, area, i as int))
        } else {
            seq![]
        },
        None => seq![],
    };
    dropdown + bar_ops(bar.menus@, bar.opened_menu, area, bar.menus@.len() as int)
}

impl MenuBar {
    /// Whether no addition in laying out the bar line leaves the cell range.
    fn bar_layout_fits(&self, area: Rect) -> (r: bool)
        ensures
            r == bar_fits(self.menus@, area),
    {
        let ghost menus = self.menus@;
        if area.x == 65535 {
            return false;
        }
        let n = self.menus.len();
        let right = (area.x as u32) + (area.width as u32);
        if n > 0 && right > 65535 {
            return false;
        }
        let mut x: u32 = (area.x as u32) + 1;
        let mut k: usize = 0;
        while k < n
            invariant
                n == menus.len(),
                menus == self.menus@,
                k <= n,
                area.x + 1 <= max_cell(),
                n > 0 ==> right <= max_cell(),
                right == area.x + area.width,
                x == bar_x(menus, area, k as int),
                x <= max_cell(),
                forall|j: int|
                    #![trigger menus[j]]
                    0 <= j < k ==> bar_x(menus, area, j) + title_cells(menus[j]) <= max_cell(),
            decreases n - k,
        {
            let text = menu_title_text(self.menus[k].title.as_str());
            let w = text.as_str().len() as u16;
            if x + (w as u32) > 65535 {
                return false;
            }
            let x1 = if x + (w as u32) <= right {
                x + (w as u32)
            } else {
                x
            };
            if k + 1 < n && x1 < right {
                x = x1 + 1;
            } else {
                x = x1;
            }
            k = k + 1;
        }
        true
    }

    /// Whether no addition in placing the dropdown of menu `index` leaves the cell
    /// range.
    fn dropdown_area_fits(&self, area: Rect, index: usize) -> (r: bool)
        requires
            index < self.menus@.len(),
        ensures
            r == dropdown_area_ok(self.menus@, area, index as int),
    {
        let ghost menus = self.menus@;
        if area.x == 65535 || area.y == 65535 || area.height == 0 {
            return false;
        }
        let mut x: u32 = (area.x as u32) + 1;
        let mut k: usize = 0;
        while k < index
            invariant
                index < menus.len(),
                menus == self.menus@,
                k <= index,
                area.x + 1 <= max_cell(),
                x == dropdown_x(menus, area, k as int),
                x <= max_cell(),
                forall|j: int|
                    #![trigger menus[j]]
                    0 <= j < k ==> {
                        &&& title_cells(menus[j]) + 1 <= max_cell()
                        &&& dropdown_x(menus, area, j) + (title_cells(menus[j]) + 1) <= max_cell()
                    },
            decreases index - k,
        {
            let text = menu_title_text(self.menus[k].title.as_str());
            let w = text.as_str().len() as u16;
            if (w as u32) + 1 > 65535 || x + (w as u32) + 1 > 65535 {
                return false;
            }
            x = x + (w as u32) + 1;
            k = k + 1;
        }
        let items = &self.menus[index].items;
        (content_width(items) as u32) + 4 <= 65535 && (items.len() as u16 as u32) + 2 <= 65535
    }

    /// Lays out the whole menu bar in `area`: the dropdown of the open menu, if any, then
    /// the bar line over it. `None` exactly when laying it out would cut a label inside a
    /// character at its hotkey or take a cell coordinate out of range.
    pub fn render(&self, area: Rect) -> (r: Option<Vec<DrawOp>>)
        ensures
            r is Some <==> render_ok(*self, area),
            r matches Some(ops) ==> ops_view(ops@) == render_ops(*self, area),
    {
        let mut ops: Vec<DrawOp> = Vec::new();
        match self.opened_menu {
            Some(menu_index) => {
                if menu_index < self.menus.len() {
                    if !self.dropdown_area_fits(area, menu_index) {
                        return None;
                    }
                    let dropdown_area = self.calculate_dropdown_area(area, menu_index);
                    match self.render_dropdown(&self.menus[menu_index], dropdown_area) {
                        Some(more) => append_ops(&mut ops, more),
                        None => return None,
                    }
                }
            },
            None => {},
        }
        if !self.bar_layout_fits(area) {
            return None;
        }
        let bar = self.render_menu_bar(area);
        append_ops(&mut ops, bar);
        Some(ops)
    }
}

// ---------------------------------------------------------------------------
// Clearing an area next to wide characters
// ---------------------------------------------------------------------------

/// The number of cells that a string takes on a terminal, as the `unicode-width` crate
/// computes it.
pub uninterp spec fn display_width(s: Seq<char>) -> usize;

/// The display width of a string.
///
/// Calls `unicode_width::UnicodeWidthStr::width`, which sums the widths that the Unicode
/// tables of the crate give its characters; the result is named `display_width` of the
/// string, a function of the string alone.
#[verifier::external_body]
fn str_display_width(s: &str) -> (r: usize)
    ensures
        r == display_width(s@),
{
    unicode_width::UnicodeWidthStr::width(s)
}

/// Whether a cell symbol is a wide character, taking more than one cell.
pub fn is_wide_symbol(symbol: &str) -> (r: bool)
    ensures
        r == (display_width(symbol@) > 1),
{
    str_display_width(symbol) > 1
}

/// The cells of a buffer that clearing an area resets: the rows and the columns of the area
/// that lie in the buffer, and the column just left of the area, if that lies in the
/// buffer, whose cell is reset on each of those rows where it holds a wide character.
#[derive(Debug, PartialEq, Eq)]
pub struct ClearPlan {
    pub rows: Vec<u16>,
    pub left_column: Option<u16>,
    pub columns: Vec<u16>,
}

/// The coordinates from `lo` up to, not including, `hi`.
pub open spec fn span(lo: int, hi: int) -> Seq<u16> {
    Seq::new(if hi > lo { (hi - lo) as nat } else { 0 }, |i: int| (lo + i) as u16)
}

fn span_vec(lo: u16, hi: u16) -> (r: Vec<u16>)
    ensures
        r@ == span(lo as int, hi as int),
{
    let mut v: Vec<u16> = Vec::new();
    let mut c = lo;
    while c < hi
        invariant
            lo <= c || hi <= lo,
            c <= hi || hi <= lo,
            hi > lo ==> lo <= c <= hi,
            hi > lo ==> v@ == span(lo as int, c as int),
            hi <= lo ==> c == lo && v@.len() == 0,
        decreases hi - c,
    {
        v.push(c);
        c = c + 1;
    }
    v
}

/// Plans the clearing of `area` in a buffer covering `buffer_area`.
pub fn plan_clear(area: Rect, buffer_area: Rect) -> (r: ClearPlan)
    ensures
        r.rows@ == span(
            max_int(area.y as int, buffer_area.y as int),
            min_int(sat_add(area.y, area.height) as int, sat_add(buffer_area.y, buffer_area.height) as int),
        ),
        r.columns@ == span(
            max_int(area.x as int, buffer_area.x as int),
            min_int(sat_add(area.x, area.width) as int, sat_add(buffer_area.x, buffer_area.width) as int),
        ),
        r.left_column == (if area.x > buffer_area.x && area.x - 1 < sat_add(
            buffer_area.x,
            buffer_area.width,
        ) {
            Some((area.x - 1) as u16)
        } else {
            None
        }),
{
    let top = if area.y > buffer_area.y {
        area.y
    } else {
        buffer_area.y
    };
    let area_bottom = area.y.saturating_add(area.height);
    let buffer_bottom = buffer_area.y.saturating_add(buffer_area.height);
    let bottom = if area_bottom < buffer_bottom {
        area_bottom
    } else {
        buffer_bottom
    };
    let left = if area.x > buffer_area.x {
        area.x
    } else {
        buffer_area.x
    };
    let area_right = area.x.saturating_add(area.width);
    let buffer_right = buffer_area.x.saturating_add(buffer_area.width);
    let right = if area_right < buffer_right {
        area_right
    } else {
        buffer_right
    };
    let left_column = if area.x > buffer_area.x && area.x - 1 < buffer_right {
        Some(area.x - 1)
    } else {
        None
    };
    ClearPlan { rows: span_vec(top, bottom), left_column, columns: span_vec(left, right) }
}

/// The cells of row `y` that clearing resets: first the cell in the column left of the
/// area, where the plan has that column and the symbol held there is a wide character,
/// then the cells of the area's columns on that row, from left to right.
pub open spec fn row_reset_cells(
    left_column: Option<u16>,
    columns: Seq<u16>,
    y: u16,
    left_symbol: Seq<char>,
) -> Seq<(u16, u16)> {
    let left = match left_column {
        Some(lx) => if display_width(left_symbol) > 1 {
            seq![(lx, y)]
        } else {
            seq![]
        },
        None => seq![],
    };
    left + columns.map_values(|x: u16| (x, y))
}

impl ClearPlan {
    /// The cells of row `y` to reset, given the symbol held in the cell left of the area on
    /// that row; the symbol is not looked at where the plan has no such column.
    pub fn row_resets(&self, y: u16, left_symbol: &str) -> (r: Vec<(u16, u16)>)
        ensures
            r@ == row_reset_cells(self.left_column, self.columns@, y, left_symbol@),
    {
        let mut cells: Vec<(u16, u16)> = Vec::new();
        if let Some(lx) = self.left_column {
            if is_wide_symbol(left_symbol) {
                cells.push((lx, y));
            }
        }
        let ghost start = cells@;
        let mut i: usize = 0;
        while i < self.columns.len()
            invariant
                i <= self.columns@.len(),
                cells@ == start + self.columns@.subrange(0, i as int).map_values(|x: u16| (x, y)),
            decreases self.columns@.len() - i,
        {
            cells.push((self.columns[i], y));
            i = i + 1;
            proof {
                assert(self.columns@.subrange(0, i as int).map_values(|x: u16| (x, y)) =~= self.columns@.subrange(
                    0,
                    i - 1,
                ).map_values(|x: u16| (x, y)).push((self.columns@[i - 1], y)));
            }
        }
        proof {
            assert(self.columns@.subrange(0, i as int) =~= self.columns@);
        }
        cells
    }
}

} // verus!
