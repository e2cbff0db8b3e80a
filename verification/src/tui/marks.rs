//! Marks on a drawn screen: the solid background, and the selected text.

use vstd::prelude::*;

use crate::text::{split_on, trim_end_text, trimmed_end};
use crate::tui::buffer::{buffer_area, buffer_cells, screen_area, CellLook};
use crate::tui::geometry::{larger, smaller, Rect};

verus! {

/// The number of a colour of red, green and blue parts.
pub open spec fn colour_number(red: u8, green: u8, blue: u8) -> nat {
    (0x1000000 + red * 0x10000 + green * 0x100 + blue) as nat
}

/// Whether the cell that `Buffer::cell` finds has the terminal's own background.
#[verifier::external_body]
fn shows_through(b: &ratatui::buffer::Buffer, x: u16, y: u16) -> (r: bool)
    ensures
        r == (buffer_cells(*b).contains_key((x, y)) && buffer_cells(*b)[(x, y)].background == 0),
{
    match b.cell((x, y)) {
        Some(cell) => cell.bg == ratatui::style::Color::Reset,
        None => false,
    }
}

/// `Cell::set_bg`, where `Buffer::cell_mut` finds a cell.
#[verifier::external_body]
fn paint_cell(b: &mut ratatui::buffer::Buffer, x: u16, y: u16, red: u8, green: u8, blue: u8)
    ensures
        buffer_area(*final(b)) == buffer_area(*old(b)),
        buffer_cells(*final(b)) == (if buffer_cells(*old(b)).contains_key((x, y)) {
            buffer_cells(*old(b)).insert(
                (x, y),
                CellLook {
                    background: colour_number(red, green, blue),
                    ..buffer_cells(*old(b))[(x, y)]
                },
            )
        } else {
            buffer_cells(*old(b))
        }),
{
    if let Some(cell) = b.cell_mut((x, y)) {
        cell.set_bg(ratatui::style::Color::Rgb(red, green, blue));
    }
}

/// The symbol of the cell that `Buffer::cell` finds.
#[verifier::external_body]
fn symbol_at(b: &ratatui::buffer::Buffer, x: u16, y: u16) -> (r: Option<String>)
    ensures
        r is Some <==> buffer_cells(*b).contains_key((x, y)),
        r is Some ==> r->0@ == buffer_cells(*b)[(x, y)].symbol,
{
    b.cell((x, y)).map(|cell| cell.symbol().to_string())
}

/// `Modifier::insert` of `REVERSED`, where `Buffer::cell_mut` finds a cell.
#[verifier::external_body]
fn reverse_cell(b: &mut ratatui::buffer::Buffer, x: u16, y: u16)
    ensures
        buffer_area(*final(b)) == buffer_area(*old(b)),
        buffer_cells(*final(b)) == (if buffer_cells(*old(b)).contains_key((x, y)) {
            buffer_cells(*old(b)).insert(
                (x, y),
                CellLook { reversed: true, ..buffer_cells(*old(b))[(x, y)] },
            )
        } else {
            buffer_cells(*old(b))
        }),
{
    if let Some(cell) = b.cell_mut((x, y)) {
        cell.modifier.insert(ratatui::style::Modifier::REVERSED);
    }
}

// ---------------------------------------------------------------------------
// The background

/// A cell with a background in place of the terminal's own.
pub open spec fn backed(look: CellLook, colour: nat) -> CellLook {
    if look.background == 0 {
        CellLook { background: colour, ..look }
    } else {
        look
    }
}

/// The screen with a solid background: each cell that shows the terminal's own gets
/// the given one.
pub open spec fn with_background(cells: Map<(u16, u16), CellLook>, colour: nat) -> Map<
    (u16, u16),
    CellLook,
> {
    Map::new(|p: (u16, u16)| cells.contains_key(p), |p: (u16, u16)| backed(cells[p], colour))
}

/// The screen with a solid background in the rows above `y`.
spec fn part_background(cells: Map<(u16, u16), CellLook>, colour: nat, y: int) -> Map<
    (u16, u16),
    CellLook,
> {
    Map::new(
        |p: (u16, u16)| cells.contains_key(p),
        |p: (u16, u16)|
            if p.1 < y {
                backed(cells[p], colour)
            } else {
                cells[p]
            },
    )
}

/// Paint one row of the screen.
fn paint_row(screen: &mut ratatui::buffer::Buffer, area: Rect, y: u16, red: u8, green: u8, blue: u8)
    requires
        forall|px: u16, py: u16| #[trigger]
            buffer_cells(*old(screen)).contains_key((px, py)) ==> area.holds(px as int, py as int),
    ensures
        buffer_area(*final(screen)) == buffer_area(*old(screen)),
        buffer_cells(*final(screen)) == Map::new(
            |p: (u16, u16)| buffer_cells(*old(screen)).contains_key(p),
            |p: (u16, u16)|
                if p.1 == y {
                    backed(buffer_cells(*old(screen))[p], colour_number(red, green, blue))
                } else {
                    buffer_cells(*old(screen))[p]
                },
        ),
{
    let ghost start = buffer_cells(*screen);
    let ghost colour = colour_number(red, green, blue);
    let mut x: u16 = area.left();
    let ghost part = |x: int|
        Map::new(
            |p: (u16, u16)| start.contains_key(p),
            |p: (u16, u16)|
                if p.1 == y && area.x <= p.0 < x {
                    backed(start[p], colour)
                } else {
                    start[p]
                },
        );
    assert(start =~= part(x as int));
    while x < area.right()
        invariant
            area.x <= x <= area.right_edge(),
            colour == colour_number(red, green, blue),
            buffer_area(*screen) == buffer_area(*old(screen)),
            part == (|x: int|
                Map::new(
                    |p: (u16, u16)| start.contains_key(p),
                    |p: (u16, u16)|
                        if p.1 == y && area.x <= p.0 < x {
                            backed(start[p], colour)
                        } else {
                            start[p]
                        },
                )),
            buffer_cells(*screen) == part(x as int),
        decreases area.right_edge() - x,
    {
        if shows_through(screen, x, y) {
            paint_cell(screen, x, y, red, green, blue);
        }
        assert(buffer_cells(*screen) =~= part(x + 1));
        x = x + 1;
    }
    assert forall|p: (u16, u16)| start.contains_key(p) implies area.holds(
        p.0 as int,
        p.1 as int,
    ) by {
        assert(start.contains_key((p.0, p.1)));
    }
}

/// Give every cell that shows the terminal's own background a solid one.
pub fn fill_background(screen: &mut ratatui::buffer::Buffer, red: u8, green: u8, blue: u8)
    ensures
        buffer_area(*final(screen)) == buffer_area(*old(screen)),
        buffer_cells(*final(screen)) == with_background(
            buffer_cells(*old(screen)),
            colour_number(red, green, blue),
        ),
{
    let ghost start = buffer_cells(*screen);
    let ghost colour = colour_number(red, green, blue);
    let area = screen_area(screen);
    let mut y: u16 = area.top();
    assert forall|p: (u16, u16)| start.contains_key(p) implies area.holds(
        p.0 as int,
        p.1 as int,
    ) by {
        assert(start.contains_key((p.0, p.1)));
    }
    assert(start =~= part_background(start, colour, y as int));
    while y < area.bottom()
        invariant
            area.y <= y <= area.bottom_edge(),
            colour == colour_number(red, green, blue),
            buffer_area(*screen) == buffer_area(*old(screen)),
            forall|px: u16, py: u16| #[trigger]
                start.contains_key((px, py)) ==> area.holds(px as int, py as int),
            buffer_cells(*screen) == part_background(start, colour, y as int),
        decreases area.bottom_edge() - y,
    {
        paint_row(screen, area, y, red, green, blue);
        assert(buffer_cells(*screen) =~= part_background(start, colour, y + 1));
        y = y + 1;
    }
    assert(buffer_cells(*screen) =~= with_background(start, colour));
}

/// With a solid background no cell shows the terminal's own, and painting it a second
/// time changes nothing.
pub proof fn law_background_is_solid(
    cells: Map<(u16, u16), CellLook>,
    red: u8,
    green: u8,
    blue: u8,
)
    ensures
        forall|p: (u16, u16)|
            cells.contains_key(p) ==> (#[trigger] with_background(
                cells,
                colour_number(red, green, blue),
            )[p]).background != 0,
        with_background(
            with_background(cells, colour_number(red, green, blue)),
            colour_number(red, green, blue),
        ) == with_background(cells, colour_number(red, green, blue)),
{
    let colour = colour_number(red, green, blue);
    assert(with_background(with_background(cells, colour), colour) =~= with_background(
        cells,
        colour,
    ));
}

// ---------------------------------------------------------------------------
// The selection

/// Text that is selected from one cell to another, in reading order, within a part of
/// the screen. A place is a column and a row.
pub ghost struct Selection {
    pub body: Rect,
    /// The first cell in reading order.
    pub start: (u16, u16),
    /// The last cell in reading order.
    pub end: (u16, u16),
}

/// The selection between two cells, whichever comes first.
pub open spec fn selection_between(body: Rect, a: (u16, u16), b: (u16, u16)) -> Selection {
    if a.1 < b.1 || (a.1 == b.1 && a.0 <= b.0) {
        Selection { body, start: a, end: b }
    } else {
        Selection { body, start: b, end: a }
    }
}

impl Selection {
    /// The last row of the part of the screen.
    pub open spec fn last_row(self) -> int {
        self.body.y + larger(self.body.height - 1, 0)
    }

    /// The last column of the part of the screen.
    pub open spec fn last_col(self) -> int {
        self.body.x + larger(self.body.width - 1, 0)
    }

    /// The first selected row.
    pub open spec fn first_selected(self) -> int {
        larger(self.start.1 as int, self.body.y as int)
    }

    /// The last selected row.
    pub open spec fn last_selected(self) -> int {
        smaller(self.end.1 as int, self.last_row())
    }

    /// The first selected column of a row: the whole row is selected but in the row
    /// where the selection begins.
    pub open spec fn from(self, row: int) -> int {
        larger(
            if row == self.start.1 {
                self.start.0 as int
            } else {
                self.body.x as int
            },
            self.body.x as int,
        )
    }

    /// The last selected column of a row: the whole row is selected but in the row
    /// where the selection ends.
    pub open spec fn to(self, row: int) -> int {
        smaller(
            if row == self.end.1 {
                self.end.0 as int
            } else {
                self.last_col()
            },
            self.last_col(),
        )
    }

    /// Whether a cell is selected.
    pub open spec fn selects(self, p: (u16, u16)) -> bool {
        self.first_selected() <= p.1 <= self.last_selected() && self.from(p.1 as int) <= p.0
            <= self.to(p.1 as int)
    }
}

/// The symbols of a row from one column up to another.
pub open spec fn symbols_in(cells: Map<(u16, u16), CellLook>, y: int, x0: int, x1: int) -> Seq<char>
    decreases x1 - x0,
{
    if x1 <= x0 {
        Seq::empty()
    } else {
        let p = ((x1 - 1) as u16, y as u16);
        symbols_in(cells, y, x0, x1 - 1) + (if cells.contains_key(p) {
            cells[p].symbol
        } else {
            Seq::empty()
        })
    }
}

/// The selected text of one row, without the space at its end.
pub open spec fn row_text(cells: Map<(u16, u16), CellLook>, sel: Selection, y: int) -> Seq<char> {
    trimmed_end(symbols_in(cells, y, sel.from(y), sel.to(y) + 1))
}

/// The selected text of the rows up to one: a line for each.
pub open spec fn rows_text(cells: Map<(u16, u16), CellLook>, sel: Selection, y: int) -> Seq<char>
    decreases y - sel.first_selected(),
{
    if y < sel.first_selected() {
        Seq::empty()
    } else if y == sel.first_selected() {
        row_text(cells, sel, y)
    } else {
        rows_text(cells, sel, y - 1) + seq!['\n'] + row_text(cells, sel, y)
    }
}

/// The selected text.
pub open spec fn selected_text(cells: Map<(u16, u16), CellLook>, sel: Selection) -> Seq<char> {
    rows_text(cells, sel, sel.last_selected())
}

/// The screen with the selected cells reversed.
pub open spec fn with_selection(cells: Map<(u16, u16), CellLook>, sel: Selection) -> Map<
    (u16, u16),
    CellLook,
> {
    Map::new(
        |p: (u16, u16)| cells.contains_key(p),
        |p: (u16, u16)|
            if sel.selects(p) {
                CellLook { reversed: true, ..cells[p] }
            } else {
                cells[p]
            },
    )
}

/// The screen with some cells of one row reversed.
pub open spec fn with_row_reversed(
    cells: Map<(u16, u16), CellLook>,
    y: int,
    x0: int,
    x1: int,
) -> Map<(u16, u16), CellLook> {
    Map::new(
        |p: (u16, u16)| cells.contains_key(p),
        |p: (u16, u16)|
            if p.1 == y && x0 <= p.0 < x1 {
                CellLook { reversed: true, ..cells[p] }
            } else {
                cells[p]
            },
    )
}

/// Reversing cells leaves their symbols alone.
proof fn lemma_symbols_kept(
    a: Map<(u16, u16), CellLook>,
    b: Map<(u16, u16), CellLook>,
    y: int,
    x0: int,
    x1: int,
)
    requires
        forall|p: (u16, u16)|
            #![trigger a.contains_key(p)]
            #![trigger b.contains_key(p)]
            a.contains_key(p) == b.contains_key(p),
        forall|p: (u16, u16)|
            #![trigger a[p]]
            #![trigger b[p]]
            a.contains_key(p) ==> a[p].symbol == b[p].symbol,
    ensures
        symbols_in(a, y, x0, x1) == symbols_in(b, y, x0, x1),
    decreases x1 - x0,
{
    if x1 > x0 {
        lemma_symbols_kept(a, b, y, x0, x1 - 1);
        let p = ((x1 - 1) as u16, y as u16);
        assert(a.contains_key(p) == b.contains_key(p));
    }
}

/// Reverse the cells of a row from one column to another, and read their symbols.
fn select_row(screen: &mut ratatui::buffer::Buffer, y: u16, from: u16, to: u16) -> (r: String)
    ensures
        buffer_area(*final(screen)) == buffer_area(*old(screen)),
        buffer_cells(*final(screen)) == with_row_reversed(
            buffer_cells(*old(screen)),
            y as int,
            from as int,
            to + 1,
        ),
        r@ == symbols_in(buffer_cells(*old(screen)), y as int, from as int, to + 1),
{
    let ghost start = buffer_cells(*screen);
    let mut line = String::new();
    let mut x: u32 = from as u32;
    assert(start =~= with_row_reversed(start, y as int, from as int, x as int));
    while x <= to as u32
        invariant
            from <= x,
            from <= to ==> x <= to + 1,
            from > to ==> x == from,
            buffer_area(*screen) == buffer_area(*old(screen)),
            buffer_cells(*screen) == with_row_reversed(start, y as int, from as int, x as int),
            line@ == symbols_in(start, y as int, from as int, x as int),
        decreases to + 1 - x,
    {
        let col: u16 = x as u16;
        if let Some(symbol) = symbol_at(screen, col, y) {
            reverse_cell(screen, col, y);
            line.push_str(symbol.as_str());
        }
        proof {
            assert((((x + 1) - 1) as u16, (y as int) as u16) == (col, y));
            assert(buffer_cells(*screen) =~= with_row_reversed(
                start,
                y as int,
                from as int,
                x + 1,
            ));
            assert(line@ =~= symbols_in(start, y as int, from as int, x + 1));
        }
        x = x + 1;
    }
    assert(buffer_cells(*screen) =~= with_row_reversed(start, y as int, from as int, to + 1));
    line
}

/// The screen with the selected cells of the rows above `y` reversed.
spec fn part_selection(cells: Map<(u16, u16), CellLook>, sel: Selection, y: int) -> Map<
    (u16, u16),
    CellLook,
> {
    Map::new(
        |p: (u16, u16)| cells.contains_key(p),
        |p: (u16, u16)|
            if p.1 < y && sel.selects(p) {
                CellLook { reversed: true, ..cells[p] }
            } else {
                cells[p]
            },
    )
}

/// Mark the text that is selected between two cells of a part of the screen, and read
/// it. Each cell is a column and a row.
pub fn apply_panel_selection(
    screen: &mut ratatui::buffer::Buffer,
    body: Rect,
    anchor: (u16, u16),
    cur: (u16, u16),
) -> (r: String)
    requires
        body.fits(),
    ensures
        buffer_area(*final(screen)) == buffer_area(*old(screen)),
        buffer_cells(*final(screen)) == with_selection(
            buffer_cells(*old(screen)),
            selection_between(body, anchor, cur),
        ),
        r@ == selected_text(
            buffer_cells(*old(screen)),
            selection_between(body, anchor, cur),
        ),
{
    let ghost sel = selection_between(body, anchor, cur);
    let ghost start_cells = buffer_cells(*screen);
    let forward: bool = anchor.1 < cur.1 || (anchor.1 == cur.1 && anchor.0 <= cur.0);
    let start: (u16, u16) = if forward {
        anchor
    } else {
        cur
    };
    let end: (u16, u16) = if forward {
        cur
    } else {
        anchor
    };
    let last_row: u16 = body.y + body.height.saturating_sub(1);
    let last_col: u16 = body.x + body.width.saturating_sub(1);
    let y0: u16 = if start.1 > body.y {
        start.1
    } else {
        body.y
    };
    let y1: u16 = if end.1 < last_row {
        end.1
    } else {
        last_row
    };
    let mut text = String::new();
    if y0 > y1 {
        assert(buffer_cells(*screen) =~= with_selection(start_cells, sel));
        assert(text@ =~= selected_text(start_cells, sel));
        return text;
    }
    let mut y: u32 = y0 as u32;
    assert(buffer_cells(*screen) =~= part_selection(start_cells, sel, y as int));
    assert(text@ =~= rows_text(start_cells, sel, y - 1));
    while y <= y1 as u32
        invariant
            y0 <= y <= y1 + 1,
            y0 == sel.first_selected(),
            y1 == sel.last_selected(),
            sel.body == body,
            sel.start == start,
            sel.end == end,
            last_col == sel.last_col(),
            buffer_area(*screen) == buffer_area(*old(screen)),
            buffer_cells(*screen) == part_selection(start_cells, sel, y as int),
            text@ == rows_text(start_cells, sel, y - 1),
        decreases y1 + 1 - y,
    {
        let row: u16 = y as u16;
        let mut from: u16 = if row == start.1 {
            start.0
        } else {
            body.x
        };
        if from < body.x {
            from = body.x;
        }
        let mut to: u16 = if row == end.1 {
            end.0
        } else {
            last_col
        };
        if to > last_col {
            to = last_col;
        }
        let ghost before = buffer_cells(*screen);
        let line = select_row(screen, row, from, to);
        proof {
            assert(from == sel.from(y as int));
            assert(to == sel.to(y as int));
            lemma_symbols_kept(before, start_cells, y as int, from as int, to + 1);
            assert(buffer_cells(*screen) =~= part_selection(start_cells, sel, y + 1));
        }
        if row != y0 {
            text.push('\n');
        }
        let line = trim_end_text(line.as_str());
        let ghost so_far = text@;
        text.push_str(line.as_str());
        proof {
            assert(line@ == row_text(start_cells, sel, y as int));
            if row == y0 {
                assert(so_far =~= Seq::empty());
                assert(text@ =~= row_text(start_cells, sel, y as int));
            } else {
                assert(so_far =~= rows_text(start_cells, sel, y - 1) + seq!['\n']);
            }
        }
        y = y + 1;
    }
    assert(buffer_cells(*screen) =~= with_selection(start_cells, sel));
    text
}

/// It makes no difference in which direction text is selected.
pub proof fn law_selection_direction(body: Rect, a: (u16, u16), b: (u16, u16))
    ensures
        selection_between(body, a, b) == selection_between(body, b, a),
{
}

/// Selecting changes no symbol, and nothing outside the part of the screen, where
/// that is not empty.
pub proof fn law_selection_stays_inside(
    cells: Map<(u16, u16), CellLook>,
    sel: Selection,
    p: (u16, u16),
)
    requires
        sel.body.fits(),
        sel.body.width > 0,
        sel.body.height > 0,
        cells.contains_key(p),
    ensures
        with_selection(cells, sel)[p].symbol == cells[p].symbol,
        !sel.body.holds(p.0 as int, p.1 as int) ==> with_selection(cells, sel)[p] == cells[p],
{
}

/// The parts of a colour are read back from its number, which is never that of the
/// terminal's own.
pub proof fn law_colour_reads_back(red: u8, green: u8, blue: u8)
    ensures
        ({
            let n = colour_number(red, green, blue) as int;
            n / 0x1000000 == 1 && n / 0x10000 % 0x100 == red && n / 0x100 % 0x100 == green && n
                % 0x100 == blue
        }),
{
}

/// A solid background is given to the cells that show the terminal's own, and to no
/// other; nothing but the background of a cell changes, and no cell comes or goes.
pub proof fn law_background_changes_only(
    cells: Map<(u16, u16), CellLook>,
    colour: nat,
    p: (u16, u16),
)
    ensures
        ({
            let painted = with_background(cells, colour);
            &&& painted.contains_key(p) <==> cells.contains_key(p)
            &&& cells.contains_key(p) ==> {
                &&& painted[p].symbol == cells[p].symbol
                &&& painted[p].foreground == cells[p].foreground
                &&& painted[p].reversed == cells[p].reversed
                &&& painted[p].other == cells[p].other
                &&& cells[p].background == 0 ==> painted[p].background == colour
                &&& cells[p].background != 0 ==> painted[p].background == cells[p].background
            }
        }),
{
}

/// Whether a cell comes no later than another in reading order.
pub open spec fn reads_before(a: (u16, u16), b: (u16, u16)) -> bool {
    a.1 < b.1 || (a.1 == b.1 && a.0 <= b.0)
}

/// A cell of a part of the screen is selected exactly where it is between the two ends
/// in reading order, both of them included, whichever end was first; outside of that
/// part nothing is.
pub proof fn law_selected_in_reading_order(
    body: Rect,
    a: (u16, u16),
    b: (u16, u16),
    p: (u16, u16),
)
    requires
        body.fits(),
        body.width > 0,
        body.height > 0,
    ensures
        selection_between(body, a, b).selects(p) <==> body.holds(p.0 as int, p.1 as int) && ((
        reads_before(a, p) && reads_before(p, b)) || (reads_before(b, p) && reads_before(p, a))),
{
}

/// A selected cell is reversed and otherwise the same; a cell that is not selected does
/// not change at all.
pub proof fn law_selection_reverses(
    cells: Map<(u16, u16), CellLook>,
    sel: Selection,
    p: (u16, u16),
)
    ensures
        ({
            let marked = with_selection(cells, sel);
            &&& marked.contains_key(p) <==> cells.contains_key(p)
            &&& cells.contains_key(p) && sel.selects(p) ==> {
                &&& marked[p].reversed
                &&& marked[p].symbol == cells[p].symbol
                &&& marked[p].foreground == cells[p].foreground
                &&& marked[p].background == cells[p].background
                &&& marked[p].other == cells[p].other
            }
            &&& cells.contains_key(p) && !sel.selects(p) ==> marked[p] == cells[p]
        }),
{
}

/// The symbols of the selected cells of a row, up to a column.
pub open spec fn picked(
    cells: Map<(u16, u16), CellLook>,
    sel: Selection,
    y: u16,
    columns: int,
) -> Seq<char>
    decreases columns,
{
    if columns <= 0 {
        Seq::empty()
    } else {
        let p = ((columns - 1) as u16, y);
        if cells.contains_key(p) && sel.selects(p) {
            picked(cells, sel, y, columns - 1) + cells[p].symbol
        } else {
            picked(cells, sel, y, columns - 1)
        }
    }
}

proof fn lemma_picked(
    cells: Map<(u16, u16), CellLook>,
    sel: Selection,
    y: u16,
    columns: int,
)
    requires
        sel.first_selected() <= y <= sel.last_selected(),
        0 <= columns <= 0x10000,
        sel.from(y as int) >= 0,
    ensures
        columns <= sel.to(y as int) + 1 ==> picked(cells, sel, y, columns) == symbols_in(
            cells,
            y as int,
            sel.from(y as int),
            columns,
        ),
        columns >= sel.to(y as int) + 1 ==> picked(cells, sel, y, columns) == symbols_in(
            cells,
            y as int,
            sel.from(y as int),
            sel.to(y as int) + 1,
        ),
    decreases columns,
{
    if columns > 0 {
        lemma_picked(cells, sel, y, columns - 1);
        let p = ((columns - 1) as u16, (y as int) as u16);
        assert(p == ((columns - 1) as u16, y));
        assert(sel.selects(p) <==> sel.from(y as int) <= columns - 1 <= sel.to(y as int));
        assert(picked(cells, sel, y, columns - 1) + Seq::<char>::empty() =~= picked(
            cells,
            sel,
            y,
            columns - 1,
        ));
    }
}

/// The text of a selected row is made of the symbols of its selected cells, from left to
/// right, without the white space at its end.
pub proof fn law_row_reads_its_selected_cells(
    cells: Map<(u16, u16), CellLook>,
    sel: Selection,
    y: u16,
)
    requires
        sel.body.fits(),
        sel.first_selected() <= y <= sel.last_selected(),
    ensures
        row_text(cells, sel, y as int) == trimmed_end(picked(cells, sel, y, 0x10000)),
{
    lemma_picked(cells, sel, y, 0x10000);
}

proof fn lemma_symbols_have_no_break(cells: Map<(u16, u16), CellLook>, y: int, x0: int, x1: int)
    requires
        forall|p: (u16, u16)| cells.contains_key(p) ==> !(#[trigger] cells[p]).symbol.contains('\n'),
    ensures
        !symbols_in(cells, y, x0, x1).contains('\n'),
    decreases x1 - x0,
{
    if x1 > x0 {
        lemma_symbols_have_no_break(cells, y, x0, x1 - 1);
        let front = symbols_in(cells, y, x0, x1 - 1);
        let all = symbols_in(cells, y, x0, x1);
        let p = ((x1 - 1) as u16, y as u16);
        assert forall|i: int| 0 <= i < all.len() implies all[i] != '\n' by {
            if i < front.len() {
                assert(front[i] != '\n');
            } else {
                assert(cells.contains_key(p));
                assert(!cells[p].symbol.contains('\n'));
                assert(all[i] == cells[p].symbol[i - front.len()]);
            }
        }
    }
}

proof fn lemma_rows_are_lines(cells: Map<(u16, u16), CellLook>, sel: Selection, y: int)
    requires
        forall|p: (u16, u16)| cells.contains_key(p) ==> !(#[trigger] cells[p]).symbol.contains('\n'),
        sel.first_selected() <= y,
    ensures
        split_on(rows_text(cells, sel, y), '\n').len() == y - sel.first_selected() + 1,
        forall|row: int|
            sel.first_selected() <= row <= y ==> split_on(rows_text(cells, sel, y), '\n')[row
                - sel.first_selected()] == #[trigger] row_text(cells, sel, row),
    decreases y - sel.first_selected(),
{
    let line = row_text(cells, sel, y);
    let whole = symbols_in(cells, y, sel.from(y), sel.to(y) + 1);
    lemma_symbols_have_no_break(cells, y, sel.from(y), sel.to(y) + 1);
    crate::text::law_trimming_the_end(whole);
    assert forall|i: int| 0 <= i < line.len() implies line[i] != '\n' by {
        assert(whole[i] != '\n');
    }
    if y == sel.first_selected() {
        crate::text::law_split_one_more(Seq::empty(), line, '\n');
    } else {
        lemma_rows_are_lines(cells, sel, y - 1);
        crate::text::law_split_one_more(rows_text(cells, sel, y - 1), line, '\n');
    }
}

/// The selected text has one line for each selected row, from top to bottom, with the
/// text of that row. There is no text where no row is selected.
pub proof fn law_selected_rows_are_lines(
    cells: Map<(u16, u16), CellLook>,
    sel: Selection,
    row: int,
)
    requires
        forall|p: (u16, u16)| cells.contains_key(p) ==> !(#[trigger] cells[p]).symbol.contains('\n'),
    ensures
        sel.first_selected() > sel.last_selected() ==> selected_text(cells, sel).len() == 0,
        sel.first_selected() <= row <= sel.last_selected() ==> {
            let lines = split_on(selected_text(cells, sel), '\n');
            &&& lines.len() == sel.last_selected() - sel.first_selected() + 1
            &&& lines[row - sel.first_selected()] == row_text(cells, sel, row)
        },
{
    if sel.first_selected() <= row <= sel.last_selected() {
        lemma_rows_are_lines(cells, sel, sel.last_selected());
    }
}

} // verus!
