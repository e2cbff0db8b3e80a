//! Moving cells on the screen: the slides of popups and sessions, the backdrop, and
//! the selection of text.

use vstd::prelude::*;

use crate::tui::geometry::Rect;

verus! {

/// The cells of a screen, `ratatui`'s `Buffer`.
#[verifier::external_type_specification]
#[verifier::external_body]
pub struct ExBuffer(ratatui::buffer::Buffer);

/// What a cell shows. Colours are numbers: zero is the terminal's own, and a colour of
/// red, green and blue parts is `0x1000000` and the three bytes in this order.
pub ghost struct CellLook {
    pub symbol: Seq<char>,
    pub foreground: nat,
    pub background: nat,
    /// The cell is shown with its colours exchanged.
    pub reversed: bool,
    /// Everything else, as a number that is zero in an empty cell.
    pub other: nat,
}

/// What a screen shows in each of its cells, by column and row.
pub uninterp spec fn buffer_cells(b: ratatui::buffer::Buffer) -> Map<(u16, u16), CellLook>;

/// The area of a screen: its left column, its top row, its width and its height.
pub uninterp spec fn buffer_area(b: ratatui::buffer::Buffer) -> (u16, u16, u16, u16);

/// A cell that shows nothing.
pub open spec fn blank() -> CellLook {
    CellLook { symbol: seq![' '], foreground: 0, background: 0, reversed: false, other: 0 }
}

/// The area of a screen as a rectangle.
pub open spec fn screen_rect(b: ratatui::buffer::Buffer) -> Rect {
    let (x, y, width, height) = buffer_area(b);
    Rect { x, y, width, height }
}

/// `Buffer::area`. Every cell of a screen is inside its area.
#[verifier::external_body]
pub(crate) fn screen_area(b: &ratatui::buffer::Buffer) -> (r: Rect)
    ensures
        r == screen_rect(*b),
        forall|x: u16, y: u16| #[trigger]
            buffer_cells(*b).contains_key((x, y)) ==> r.holds(x as int, y as int),
{
    Rect { x: b.area.x, y: b.area.y, width: b.area.width, height: b.area.height }
}

/// `Buffer::empty`: a screen of blank cells.
#[verifier::external_body]
fn blank_screen(area: Rect) -> (r: ratatui::buffer::Buffer)
    ensures
        screen_rect(r) == area,
        buffer_cells(r) == Map::new(
            |p: (u16, u16)| area.holds(p.0 as int, p.1 as int),
            |p: (u16, u16)| blank(),
        ),
{
    ratatui::buffer::Buffer::empty(
        ratatui::layout::Rect { x: area.x, y: area.y, width: area.width, height: area.height },
    )
}

/// `Buffer::clone`.
#[verifier::external_body]
fn copy_screen(b: &ratatui::buffer::Buffer) -> (r: ratatui::buffer::Buffer)
    ensures
        buffer_area(r) == buffer_area(*b),
        buffer_cells(r) == buffer_cells(*b),
{
    b.clone()
}

/// Assigns a clone of what `Buffer::cell` finds to what `Buffer::cell_mut` finds;
/// nothing happens where either finds no cell.
#[verifier::external_body]
fn copy_cell(
    dst: &mut ratatui::buffer::Buffer,
    x: u16,
    y: u16,
    src: &ratatui::buffer::Buffer,
    from_x: u16,
    from_y: u16,
)
    ensures
        buffer_area(*final(dst)) == buffer_area(*old(dst)),
        buffer_cells(*final(dst)) == (if buffer_cells(*old(dst)).contains_key((x, y))
            && buffer_cells(*src).contains_key((from_x, from_y)) {
            buffer_cells(*old(dst)).insert((x, y), buffer_cells(*src)[(from_x, from_y)])
        } else {
            buffer_cells(*old(dst))
        }),
{
    if let (Some(from), Some(to)) = (src.cell((from_x, from_y)), dst.cell_mut((x, y))) {
        *to = from.clone();
    }
}

/// `Cell::reset`, where `Buffer::cell_mut` finds a cell.
#[verifier::external_body]
fn reset_cell(dst: &mut ratatui::buffer::Buffer, x: u16, y: u16)
    ensures
        buffer_area(*final(dst)) == buffer_area(*old(dst)),
        buffer_cells(*final(dst)) == (if buffer_cells(*old(dst)).contains_key((x, y)) {
            buffer_cells(*old(dst)).insert((x, y), blank())
        } else {
            buffer_cells(*old(dst))
        }),
{
    if let Some(cell) = dst.cell_mut((x, y)) {
        cell.reset();
    }
}

/// Whether `Buffer::cell` finds a cell.
#[verifier::external_body]
fn has_cell(b: &ratatui::buffer::Buffer, x: u16, y: u16) -> (r: bool)
    ensures
        r == buffer_cells(*b).contains_key((x, y)),
{
    b.cell((x, y)).is_some()
}

/// The places that a block of cells covers.
pub open spec fn in_block(x0: int, x1: int, y0: int, y1: int, p: (u16, u16)) -> bool {
    x0 <= p.0 < x1 && y0 <= p.1 < y1
}

/// The cells of a screen with a block of another one copied into it. The cell in
/// column `x` and row `y` comes from column `x - dx` and row `y + dy`; one that the
/// other screen does not have leaves the cell as it was.
pub open spec fn with_block(
    old_cells: Map<(u16, u16), CellLook>,
    src: Map<(u16, u16), CellLook>,
    x0: int,
    x1: int,
    y0: int,
    y1: int,
    dx: int,
    dy: int,
) -> Map<(u16, u16), CellLook> {
    Map::new(
        |p: (u16, u16)| old_cells.contains_key(p),
        |p: (u16, u16)|
            {
                let from = ((p.0 - dx) as u16, (p.1 + dy) as u16);
                if in_block(x0, x1, y0, y1, p) && src.contains_key(from) {
                    src[from]
                } else {
                    old_cells[p]
                }
            },
    )
}

/// Copy one row of a block.
fn copy_row(
    dst: &mut ratatui::buffer::Buffer,
    src: &ratatui::buffer::Buffer,
    x0: u16,
    x1: u16,
    y: u16,
    dx: u16,
    dy: u16,
)
    requires
        dx <= x0,
        y + dy <= u16::MAX,
    ensures
        buffer_area(*final(dst)) == buffer_area(*old(dst)),
        buffer_cells(*final(dst)) == with_block(
            buffer_cells(*old(dst)),
            buffer_cells(*src),
            x0 as int,
            x1 as int,
            y as int,
            y + 1,
            dx as int,
            dy as int,
        ),
{
    let ghost start = buffer_cells(*dst);
    let ghost from = buffer_cells(*src);
    let mut x: u16 = x0;
    assert(start =~= with_block(
        start,
        from,
        x0 as int,
        x0 as int,
        y as int,
        y + 1,
        dx as int,
        dy as int,
    ));
    while x < x1
        invariant
            x0 <= x,
            x0 <= x1 ==> x <= x1,
            x0 > x1 ==> x == x0,
            dx <= x0,
            y + dy <= u16::MAX,
            from == buffer_cells(*src),
            buffer_area(*dst) == buffer_area(*old(dst)),
            buffer_cells(*dst) == with_block(
                start,
                from,
                x0 as int,
                x as int,
                y as int,
                y + 1,
                dx as int,
                dy as int,
            ),
        decreases x1 - x,
    {
        copy_cell(dst, x, y, src, x - dx, y + dy);
        assert(buffer_cells(*dst) =~= with_block(
            start,
            from,
            x0 as int,
            x + 1,
            y as int,
            y + 1,
            dx as int,
            dy as int,
        ));
        x = x + 1;
    }
    assert(buffer_cells(*dst) =~= with_block(
        start,
        from,
        x0 as int,
        x1 as int,
        y as int,
        y + 1,
        dx as int,
        dy as int,
    ));
}

/// Copy a block of one screen into another.
fn copy_block(
    dst: &mut ratatui::buffer::Buffer,
    src: &ratatui::buffer::Buffer,
    x0: u16,
    x1: u16,
    y0: u16,
    y1: u16,
    dx: u16,
    dy: u16,
)
    requires
        dx <= x0,
        y1 + dy <= u16::MAX + 1,
    ensures
        buffer_area(*final(dst)) == buffer_area(*old(dst)),
        buffer_cells(*final(dst)) == with_block(
            buffer_cells(*old(dst)),
            buffer_cells(*src),
            x0 as int,
            x1 as int,
            y0 as int,
            y1 as int,
            dx as int,
            dy as int,
        ),
{
    let ghost start = buffer_cells(*dst);
    let ghost from = buffer_cells(*src);
    let mut y: u16 = y0;
    assert(start =~= with_block(
        start,
        from,
        x0 as int,
        x1 as int,
        y0 as int,
        y0 as int,
        dx as int,
        dy as int,
    ));
    while y < y1
        invariant
            y0 <= y,
            y0 <= y1 ==> y <= y1,
            y0 > y1 ==> y == y0,
            dx <= x0,
            y1 + dy <= u16::MAX + 1,
            from == buffer_cells(*src),
            buffer_area(*dst) == buffer_area(*old(dst)),
            buffer_cells(*dst) == with_block(
                start,
                from,
                x0 as int,
                x1 as int,
                y0 as int,
                y as int,
                dx as int,
                dy as int,
            ),
        decreases y1 - y,
    {
        copy_row(dst, src, x0, x1, y, dx, dy);
        assert(buffer_cells(*dst) =~= with_block(
            start,
            from,
            x0 as int,
            x1 as int,
            y0 as int,
            y + 1,
            dx as int,
            dy as int,
        ));
        y = y + 1;
    }
    assert(buffer_cells(*dst) =~= with_block(
        start,
        from,
        x0 as int,
        x1 as int,
        y0 as int,
        y1 as int,
        dx as int,
        dy as int,
    ));
}

// ---------------------------------------------------------------------------
// Popups

/// What a popup shows: its cells, cut out of the screen.
pub open spec fn cut_out(cells: Map<(u16, u16), CellLook>, rect: Rect) -> Map<
    (u16, u16),
    CellLook,
> {
    Map::new(
        |p: (u16, u16)| rect.holds(p.0 as int, p.1 as int),
        |p: (u16, u16)|
            if cells.contains_key(p) {
                cells[p]
            } else {
                blank()
            },
    )
}

/// Keep what a popup shows, so that it can be moved later. There is nothing to keep
/// of a popup that is not on the screen.
pub fn capture_popup(
    screen: &ratatui::buffer::Buffer,
    popup: Rect,
    area: Rect,
) -> (r: Option<(Rect, ratatui::buffer::Buffer)>)
    ensures
        ({
            let rect = popup.shared(area);
            match r {
                Some((kept, cells)) => {
                    &&& rect.width > 0 && rect.height > 0
                    &&& kept == rect
                    &&& screen_rect(cells) == rect
                    &&& buffer_cells(cells) == cut_out(buffer_cells(*screen), rect)
                },
                None => rect.width == 0 || rect.height == 0,
            }
        }),
{
    let rect = popup.intersection(area);
    if rect.width == 0 || rect.height == 0 {
        return None;
    }
    let mut kept = blank_screen(rect);
    copy_block(&mut kept, screen, rect.left(), rect.right(), rect.top(), rect.bottom(), 0, 0);
    assert(buffer_cells(kept) =~= cut_out(buffer_cells(*screen), rect));
    Some((rect, kept))
}

/// The screen with a popup drawn `off` rows above its place. Rows above the top of
/// the screen are not drawn.
pub open spec fn lifted(
    cells: Map<(u16, u16), CellLook>,
    popup: Map<(u16, u16), CellLook>,
    rect: Rect,
    off: int,
) -> Map<(u16, u16), CellLook> {
    Map::new(
        |p: (u16, u16)| cells.contains_key(p),
        |p: (u16, u16)|
            {
                let from = (p.0, (p.1 + off) as u16);
                if rect.holds(p.0 as int, p.1 + off) && popup.contains_key(from) {
                    popup[from]
                } else {
                    cells[p]
                }
            },
    )
}

/// Draw a popup `off` rows above its place, as when it is thrown off the screen.
pub fn lift_popup(
    screen: &mut ratatui::buffer::Buffer,
    rect: Rect,
    popup: &ratatui::buffer::Buffer,
    off: u16,
)
    ensures
        buffer_area(*final(screen)) == buffer_area(*old(screen)),
        buffer_cells(*final(screen)) == lifted(
            buffer_cells(*old(screen)),
            buffer_cells(*popup),
            rect,
            off as int,
        ),
{
    let ghost start = buffer_cells(*screen);
    if rect.bottom() > off {
        let first: u16 = if rect.top() > off {
            rect.top() - off
        } else {
            0
        };
        copy_block(
            screen,
            popup,
            rect.left(),
            rect.right(),
            first,
            rect.bottom() - off,
            0,
            off,
        );
    }
    assert(buffer_cells(*screen) =~= lifted(start, buffer_cells(*popup), rect, off as int));
}

/// The screen with the cells of a rectangle as they were behind the popup.
pub open spec fn restored(
    cells: Map<(u16, u16), CellLook>,
    behind: Map<(u16, u16), CellLook>,
    rect: Rect,
) -> Map<(u16, u16), CellLook> {
    with_block(
        cells,
        behind,
        rect.x as int,
        rect.right_edge(),
        rect.y as int,
        rect.bottom_edge(),
        0,
        0,
    )
}

/// Draw a popup on its way down into its place: what is behind its place, and over
/// that the popup, `off` rows above it.
pub fn drop_popup(
    screen: &mut ratatui::buffer::Buffer,
    rect: Rect,
    popup: &ratatui::buffer::Buffer,
    behind: &ratatui::buffer::Buffer,
    off: u16,
)
    ensures
        buffer_area(*final(screen)) == buffer_area(*old(screen)),
        buffer_cells(*final(screen)) == lifted(
            restored(buffer_cells(*old(screen)), buffer_cells(*behind), rect),
            buffer_cells(*popup),
            rect,
            off as int,
        ),
{
    copy_block(screen, behind, rect.left(), rect.right(), rect.top(), rect.bottom(), 0, 0);
    lift_popup(screen, rect, popup, off);
}

/// A popup that has come all the way down is drawn as it is.
pub proof fn law_popup_rests(
    cells: Map<(u16, u16), CellLook>,
    behind: Map<(u16, u16), CellLook>,
    rect: Rect,
)
    ensures
        lifted(restored(cells, behind, rect), cut_out(cells, rect), rect, 0) == cells,
{
    let popup = cut_out(cells, rect);
    let mid = restored(cells, behind, rect);
    assert forall|p: (u16, u16)| cells.contains_key(p) implies #[trigger] lifted(
        mid,
        popup,
        rect,
        0,
    )[p] == cells[p] by {
        assert((p.0, (p.1 + 0) as u16) == p);
        assert(((p.0 - 0) as u16, (p.1 + 0) as u16) == p);
    }
    assert(lifted(mid, popup, rect, 0) =~= cells);
}

/// A popup that was thrown by its whole bottom edge is off the screen: nothing of it
/// lingers.
pub proof fn law_popup_leaves(
    cells: Map<(u16, u16), CellLook>,
    popup: Map<(u16, u16), CellLook>,
    rect: Rect,
    off: int,
)
    requires
        off >= rect.bottom_edge(),
    ensures
        lifted(cells, popup, rect, off) == cells,
{
    assert(lifted(cells, popup, rect, off) =~= cells);
}

// ---------------------------------------------------------------------------
// Sessions

/// The screen with a session on its way in from the right, `off` columns from its
/// place: left of it is what the session slides over, or nothing.
pub open spec fn slid_in(
    cells: Map<(u16, u16), CellLook>,
    behind: Option<Map<(u16, u16), CellLook>>,
    area: Rect,
    off: int,
) -> Map<(u16, u16), CellLook> {
    Map::new(
        |p: (u16, u16)| cells.contains_key(p),
        |p: (u16, u16)|
            {
                let from = ((p.0 - off) as u16, p.1);
                if !area.holds(p.0 as int, p.1 as int) {
                    cells[p]
                } else if p.0 - off >= area.x {
                    if cells.contains_key(from) {
                        cells[from]
                    } else {
                        cells[p]
                    }
                } else if behind is Some && behind->0.contains_key(p) {
                    behind->0[p]
                } else {
                    blank()
                }
            },
    )
}

/// What a screen behind another shows, where there is one.
pub open spec fn cells_opt(b: Option<&ratatui::buffer::Buffer>) -> Option<
    Map<(u16, u16), CellLook>,
> {
    match b {
        Some(b) => Some(buffer_cells(*b)),
        None => None,
    }
}

/// The cells with those of a band as they are behind, or blank where nothing is.
pub open spec fn uncovered(
    cells: Map<(u16, u16), CellLook>,
    behind: Option<Map<(u16, u16), CellLook>>,
    x0: int,
    x1: int,
    y0: int,
    y1: int,
) -> Map<(u16, u16), CellLook> {
    Map::new(
        |p: (u16, u16)| cells.contains_key(p),
        |p: (u16, u16)|
            if !in_block(x0, x1, y0, y1, p) {
                cells[p]
            } else if behind is Some && behind->0.contains_key(p) {
                behind->0[p]
            } else {
                blank()
            },
    )
}

/// Uncover one row of a band.
fn uncover_row(
    screen: &mut ratatui::buffer::Buffer,
    behind: Option<&ratatui::buffer::Buffer>,
    x0: u16,
    x1: u16,
    y: u16,
)
    ensures
        buffer_area(*final(screen)) == buffer_area(*old(screen)),
        buffer_cells(*final(screen)) == uncovered(
            buffer_cells(*old(screen)),
            cells_opt(behind),
            x0 as int,
            x1 as int,
            y as int,
            y + 1,
        ),
{
    let ghost start = buffer_cells(*screen);
    let ghost under = cells_opt(behind);
    let mut x: u16 = x0;
    assert(start =~= uncovered(start, under, x0 as int, x0 as int, y as int, y + 1));
    while x < x1
        invariant
            x0 <= x,
            x0 <= x1 ==> x <= x1,
            x0 > x1 ==> x == x0,
            under == cells_opt(behind),
            buffer_area(*screen) == buffer_area(*old(screen)),
            buffer_cells(*screen) == uncovered(
                start,
                under,
                x0 as int,
                x as int,
                y as int,
                y + 1,
            ),
        decreases x1 - x,
    {
        let shown: bool = match behind {
            Some(b) => has_cell(b, x, y),
            None => false,
        };
        if shown {
            if let Some(b) = behind {
                copy_cell(screen, x, y, b, x, y);
            }
        } else {
            reset_cell(screen, x, y);
        }
        assert(buffer_cells(*screen) =~= uncovered(
            start,
            under,
            x0 as int,
            x + 1,
            y as int,
            y + 1,
        ));
        x = x + 1;
    }
    assert(buffer_cells(*screen) =~= uncovered(start, under, x0 as int, x1 as int, y as int, y + 1));
}

/// Draw a session on its way in from the right, `off` columns from its place.
pub fn slide_session_in(
    screen: &mut ratatui::buffer::Buffer,
    area: Rect,
    behind: Option<&ratatui::buffer::Buffer>,
    off: u16,
)
    requires
        area.fits(),
    ensures
        buffer_area(*final(screen)) == buffer_area(*old(screen)),
        buffer_cells(*final(screen)) == slid_in(
            buffer_cells(*old(screen)),
            cells_opt(behind),
            area,
            off as int,
        ),
{
    let ghost start = buffer_cells(*screen);
    let ghost under = cells_opt(behind);
    let session = copy_screen(screen);
    let edge: u16 = area.x.saturating_add(off);
    let first: u16 = if edge < area.right() {
        edge
    } else {
        area.right()
    };
    if first < area.right() {
        copy_block(screen, &session, first, area.right(), area.top(), area.bottom(), off, 0);
    }
    let ghost moved = buffer_cells(*screen);
    let mut y: u16 = area.top();
    assert(moved =~= uncovered(
        moved,
        under,
        area.x as int,
        first as int,
        area.y as int,
        area.y as int,
    ));
    while y < area.bottom()
        invariant
            area.y <= y <= area.bottom_edge(),
            under == cells_opt(behind),
            buffer_area(*screen) == buffer_area(*old(screen)),
            buffer_cells(*screen) == uncovered(
                moved,
                under,
                area.x as int,
                first as int,
                area.y as int,
                y as int,
            ),
        decreases area.bottom_edge() - y,
    {
        uncover_row(screen, behind, area.left(), first, y);
        assert(buffer_cells(*screen) =~= uncovered(
            moved,
            under,
            area.x as int,
            first as int,
            area.y as int,
            y + 1,
        ));
        y = y + 1;
    }
    assert(buffer_cells(*screen) =~= slid_in(start, under, area, off as int));
}

/// A session that has come all the way in is drawn as it is.
pub proof fn law_session_rests(
    cells: Map<(u16, u16), CellLook>,
    behind: Option<Map<(u16, u16), CellLook>>,
    area: Rect,
)
    ensures
        slid_in(cells, behind, area, 0) == cells,
{
    assert forall|p: (u16, u16)| cells.contains_key(p) implies #[trigger] slid_in(
        cells,
        behind,
        area,
        0,
    )[p] == cells[p] by {
        assert(((p.0 - 0) as u16, p.1) == p);
    }
    assert(slid_in(cells, behind, area, 0) =~= cells);
}

/// While a session slides in over a screen, the columns it has not reached show that
/// screen.
pub proof fn law_session_slides_over(
    cells: Map<(u16, u16), CellLook>,
    behind: Map<(u16, u16), CellLook>,
    area: Rect,
    off: int,
    p: (u16, u16),
)
    requires
        cells.contains_key(p),
        behind.contains_key(p),
        area.holds(p.0 as int, p.1 as int),
        p.0 < area.x + off,
    ensures
        slid_in(cells, Some(behind), area, off)[p] == behind[p],
{
}

/// The screen with a session on its way out to the right, `off` columns from its
/// place, over what is left of it.
pub open spec fn slid_out(
    cells: Map<(u16, u16), CellLook>,
    session: Map<(u16, u16), CellLook>,
    area: Rect,
    off: int,
) -> Map<(u16, u16), CellLook> {
    with_block(
        cells,
        session,
        area.x + off,
        area.right_edge(),
        area.y as int,
        area.bottom_edge(),
        off,
        0,
    )
}

/// Draw a session on its way out to the right, `off` columns from its place.
pub fn slide_session_out(
    screen: &mut ratatui::buffer::Buffer,
    area: Rect,
    session: &ratatui::buffer::Buffer,
    off: u16,
)
    requires
        area.fits(),
    ensures
        buffer_area(*final(screen)) == buffer_area(*old(screen)),
        buffer_cells(*final(screen)) == slid_out(
            buffer_cells(*old(screen)),
            buffer_cells(*session),
            area,
            off as int,
        ),
{
    let ghost start = buffer_cells(*screen);
    if off < area.width {
        copy_block(
            screen,
            session,
            area.left() + off,
            area.right(),
            area.top(),
            area.bottom(),
            off,
            0,
        );
    }
    assert(buffer_cells(*screen) =~= slid_out(
        start,
        buffer_cells(*session),
        area,
        off as int,
    ));
}

/// A session that has gone all the way out leaves nothing behind.
pub proof fn law_session_leaves(
    cells: Map<(u16, u16), CellLook>,
    session: Map<(u16, u16), CellLook>,
    area: Rect,
    off: int,
)
    requires
        off >= area.width,
    ensures
        slid_out(cells, session, area, off) == cells,
{
    assert(slid_out(cells, session, area, off) =~= cells);
}

// ---------------------------------------------------------------------------
// From one session to another

/// Whether a layer that is moved to the right by `by` columns, within an area, covers a
/// cell.
pub open spec fn layer_covers(area: Rect, by: int, p: (u16, u16)) -> bool {
    area.x <= p.0 - by < area.right_edge()
}

/// The cell of a layer that is shown at a place.
pub open spec fn layer_cell(by: int, p: (u16, u16)) -> (u16, u16) {
    ((p.0 - by) as u16, p.1)
}

/// Whether a layer shows something at a place.
pub open spec fn layer_shows(
    layer: Map<(u16, u16), CellLook>,
    area: Rect,
    by: int,
    p: (u16, u16),
) -> bool {
    layer_covers(area, by, p) && layer.contains_key(layer_cell(by, p))
}

/// What is shown at a place within the area of two layers: the one that comes in is over
/// the one that goes out, and nothing is where neither is.
pub open spec fn shown_of_two(
    incoming: Map<(u16, u16), CellLook>,
    outgoing: Map<(u16, u16), CellLook>,
    area: Rect,
    in_by: int,
    out_by: int,
    p: (u16, u16),
) -> CellLook {
    if layer_shows(incoming, area, in_by, p) {
        incoming[layer_cell(in_by, p)]
    } else if layer_shows(outgoing, area, out_by, p) {
        outgoing[layer_cell(out_by, p)]
    } else {
        blank()
    }
}

/// The screen with two layers in a block of an area.
spec fn passing(
    cells: Map<(u16, u16), CellLook>,
    incoming: Map<(u16, u16), CellLook>,
    outgoing: Map<(u16, u16), CellLook>,
    area: Rect,
    in_by: int,
    out_by: int,
    x1: int,
    y0: int,
    y1: int,
) -> Map<(u16, u16), CellLook> {
    Map::new(
        |p: (u16, u16)| cells.contains_key(p),
        |p: (u16, u16)|
            if in_block(area.x as int, x1, y0, y1, p) {
                shown_of_two(incoming, outgoing, area, in_by, out_by, p)
            } else {
                cells[p]
            },
    )
}

/// The screen, which shows the session that comes in at its place, with this session and
/// the one that goes out both moved within the area, so many columns to the right.
pub open spec fn passed(
    cells: Map<(u16, u16), CellLook>,
    outgoing: Map<(u16, u16), CellLook>,
    area: Rect,
    in_by: int,
    out_by: int,
) -> Map<(u16, u16), CellLook> {
    Map::new(
        |p: (u16, u16)| cells.contains_key(p),
        |p: (u16, u16)|
            if area.holds(p.0 as int, p.1 as int) {
                shown_of_two(cells, outgoing, area, in_by, out_by, p)
            } else {
                cells[p]
            },
    )
}

/// The column of a layer that is shown at a place, if the layer covers it.
fn layer_column(area: Rect, by: i32, x: u16, y: u16) -> (r: Option<u16>)
    ensures
        r is Some <==> layer_covers(area, by as int, (x, y)),
        r is Some ==> r->0 == x - by,
{
    let from: i64 = x as i64 - by as i64;
    if area.left() as i64 <= from && from < area.right() as i64 {
        Some(from as u16)
    } else {
        None
    }
}

/// Draw one cell of two layers.
fn pass_cell(
    screen: &mut ratatui::buffer::Buffer,
    incoming: &ratatui::buffer::Buffer,
    outgoing: &ratatui::buffer::Buffer,
    area: Rect,
    in_by: i32,
    out_by: i32,
    x: u16,
    y: u16,
)
    ensures
        buffer_area(*final(screen)) == buffer_area(*old(screen)),
        buffer_cells(*final(screen)) == (if buffer_cells(*old(screen)).contains_key((x, y)) {
            buffer_cells(*old(screen)).insert(
                (x, y),
                shown_of_two(
                    buffer_cells(*incoming),
                    buffer_cells(*outgoing),
                    area,
                    in_by as int,
                    out_by as int,
                    (x, y),
                ),
            )
        } else {
            buffer_cells(*old(screen))
        }),
{
    if let Some(from) = layer_column(area, in_by, x, y) {
        if has_cell(incoming, from, y) {
            copy_cell(screen, x, y, incoming, from, y);
            return;
        }
    }
    if let Some(from) = layer_column(area, out_by, x, y) {
        if has_cell(outgoing, from, y) {
            copy_cell(screen, x, y, outgoing, from, y);
            return;
        }
    }
    reset_cell(screen, x, y);
}

/// Draw one row of two layers.
fn pass_row(
    screen: &mut ratatui::buffer::Buffer,
    incoming: &ratatui::buffer::Buffer,
    outgoing: &ratatui::buffer::Buffer,
    area: Rect,
    in_by: i32,
    out_by: i32,
    y: u16,
)
    ensures
        buffer_area(*final(screen)) == buffer_area(*old(screen)),
        buffer_cells(*final(screen)) == passing(
            buffer_cells(*old(screen)),
            buffer_cells(*incoming),
            buffer_cells(*outgoing),
            area,
            in_by as int,
            out_by as int,
            area.right_edge(),
            y as int,
            y + 1,
        ),
{
    let ghost start = buffer_cells(*screen);
    let ghost new = buffer_cells(*incoming);
    let ghost old_cells = buffer_cells(*outgoing);
    let mut x: u16 = area.left();
    assert(start =~= passing(
        start,
        new,
        old_cells,
        area,
        in_by as int,
        out_by as int,
        area.x as int,
        y as int,
        y + 1,
    ));
    while x < area.right()
        invariant
            area.x <= x <= area.right_edge(),
            new == buffer_cells(*incoming),
            old_cells == buffer_cells(*outgoing),
            buffer_area(*screen) == buffer_area(*old(screen)),
            buffer_cells(*screen) == passing(
                start,
                new,
                old_cells,
                area,
                in_by as int,
                out_by as int,
                x as int,
                y as int,
                y + 1,
            ),
        decreases area.right_edge() - x,
    {
        pass_cell(screen, incoming, outgoing, area, in_by, out_by, x, y);
        assert(buffer_cells(*screen) =~= passing(
            start,
            new,
            old_cells,
            area,
            in_by as int,
            out_by as int,
            x + 1,
            y as int,
            y + 1,
        ));
        x = x + 1;
    }
}

/// Draw the move from one session to another: the one that is left is carried off one
/// edge of the area while the new one, which is drawn at its place already, follows it
/// in from the other.
pub fn slide_sessions(
    screen: &mut ratatui::buffer::Buffer,
    area: Rect,
    outgoing: &ratatui::buffer::Buffer,
    in_by: i32,
    out_by: i32,
)
    ensures
        buffer_area(*final(screen)) == buffer_area(*old(screen)),
        buffer_cells(*final(screen)) == passed(
            buffer_cells(*old(screen)),
            buffer_cells(*outgoing),
            area,
            in_by as int,
            out_by as int,
        ),
{
    let ghost start = buffer_cells(*screen);
    let ghost old_cells = buffer_cells(*outgoing);
    let incoming = copy_screen(screen);
    let mut y: u16 = area.top();
    assert(start =~= passing(
        start,
        start,
        old_cells,
        area,
        in_by as int,
        out_by as int,
        area.right_edge(),
        area.y as int,
        area.y as int,
    ));
    while y < area.bottom()
        invariant
            area.y <= y <= area.bottom_edge(),
            start == buffer_cells(incoming),
            old_cells == buffer_cells(*outgoing),
            buffer_area(*screen) == buffer_area(*old(screen)),
            buffer_cells(*screen) == passing(
                start,
                start,
                old_cells,
                area,
                in_by as int,
                out_by as int,
                area.right_edge(),
                area.y as int,
                y as int,
            ),
        decreases area.bottom_edge() - y,
    {
        pass_row(screen, &incoming, outgoing, area, in_by, out_by, y);
        assert(buffer_cells(*screen) =~= passing(
            start,
            start,
            old_cells,
            area,
            in_by as int,
            out_by as int,
            area.right_edge(),
            area.y as int,
            y + 1,
        ));
        y = y + 1;
    }
    assert(buffer_cells(*screen) =~= passed(
        start,
        old_cells,
        area,
        in_by as int,
        out_by as int,
    ));
}

/// A move between sessions ends on the new one, as it is drawn, and what is outside the
/// area never moves.
pub proof fn law_session_switch_rests(
    cells: Map<(u16, u16), CellLook>,
    outgoing: Map<(u16, u16), CellLook>,
    area: Rect,
    out_by: int,
)
    ensures
        passed(cells, outgoing, area, 0, out_by) == cells,
        forall|in_by: int, p: (u16, u16)|
            cells.contains_key(p) && !area.holds(p.0 as int, p.1 as int) ==> #[trigger] passed(
                cells,
                outgoing,
                area,
                in_by,
                out_by,
            )[p] == cells[p],
{
    assert forall|p: (u16, u16)| cells.contains_key(p) implies #[trigger] passed(
        cells,
        outgoing,
        area,
        0,
        out_by,
    )[p] == cells[p] by {
        assert(layer_cell(0, p) == p);
    }
    assert(passed(cells, outgoing, area, 0, out_by) =~= cells);
}

/// A move between sessions starts on the one that is left.
pub proof fn law_session_switch_starts(
    cells: Map<(u16, u16), CellLook>,
    outgoing: Map<(u16, u16), CellLook>,
    area: Rect,
    in_by: int,
    p: (u16, u16),
)
    requires
        cells.contains_key(p),
        outgoing.contains_key(p),
        area.holds(p.0 as int, p.1 as int),
        in_by >= area.width || -in_by >= area.width,
    ensures
        passed(cells, outgoing, area, in_by, 0)[p] == outgoing[p],
{
    assert(layer_cell(0, p) == p);
}

// ---------------------------------------------------------------------------
// Where each cell goes

/// What is kept of a popup is each of its cells as the screen shows it, a space where
/// the screen has none, and nothing else.
pub proof fn law_popup_is_cut_out(
    cells: Map<(u16, u16), CellLook>,
    rect: Rect,
    p: (u16, u16),
)
    ensures
        cut_out(cells, rect).contains_key(p) <==> rect.holds(p.0 as int, p.1 as int),
        rect.holds(p.0 as int, p.1 as int) && cells.contains_key(p) ==> cut_out(cells, rect)[p]
            == cells[p],
        rect.holds(p.0 as int, p.1 as int) && !cells.contains_key(p) ==> cut_out(
            cells,
            rect,
        )[p].symbol == seq![' '] && cut_out(cells, rect)[p].background == 0,
{
}

/// Each cell of a popup is drawn so many rows further up, where the screen has that
/// place; every place without a cell of the popup so many rows below it stays as it
/// was, and no place comes or goes.
pub proof fn law_popup_is_moved_up(
    cells: Map<(u16, u16), CellLook>,
    popup: Map<(u16, u16), CellLook>,
    rect: Rect,
    off: u16,
    q: (u16, u16),
    p: (u16, u16),
)
    requires
        rect.fits(),
    ensures
        lifted(cells, popup, rect, off as int).dom() == cells.dom(),
        rect.holds(q.0 as int, q.1 as int) && popup.contains_key(q) && q.1 >= off
            && cells.contains_key((q.0, (q.1 - off) as u16)) ==> lifted(
            cells,
            popup,
            rect,
            off as int,
        )[(q.0, (q.1 - off) as u16)] == popup[q],
        cells.contains_key(p) && !rect.holds(p.0 as int, p.1 + off) ==> lifted(
            cells,
            popup,
            rect,
            off as int,
        )[p] == cells[p],
{
    assert(lifted(cells, popup, rect, off as int).dom() =~= cells.dom());
    if q.1 >= off {
        let to = (q.0, (q.1 - off) as u16);
        assert((to.0, (to.1 + off) as u16) == q);
    }
}

/// While a popup comes down, the part of its place that it has not reached shows what
/// is behind it, and what is neither in its place nor under it stays as it was.
pub proof fn law_popup_uncovers_its_place(
    cells: Map<(u16, u16), CellLook>,
    popup: Map<(u16, u16), CellLook>,
    behind: Map<(u16, u16), CellLook>,
    rect: Rect,
    off: u16,
    p: (u16, u16),
)
    requires
        rect.fits(),
        cells.contains_key(p),
        !rect.holds(p.0 as int, p.1 + off),
    ensures
        ({
            let shown = lifted(restored(cells, behind, rect), popup, rect, off as int);
            &&& rect.holds(p.0 as int, p.1 as int) && behind.contains_key(p) ==> shown[p]
                == behind[p]
            &&& !rect.holds(p.0 as int, p.1 as int) ==> shown[p] == cells[p]
        }),
{
    assert(((p.0 - 0) as u16, (p.1 + 0) as u16) == p);
}

/// Each cell of a session that comes in is drawn so many columns further right, as long
/// as that is within the area; where there is no such cell, nothing changes. The columns
/// before them show what is behind, or a space where nothing is. Outside of the area
/// nothing changes either.
pub proof fn law_session_is_moved_in(
    cells: Map<(u16, u16), CellLook>,
    behind: Option<Map<(u16, u16), CellLook>>,
    area: Rect,
    off: u16,
    q: (u16, u16),
    p: (u16, u16),
)
    requires
        area.fits(),
    ensures
        ({
            let shown = slid_in(cells, behind, area, off as int);
            &&& shown.dom() == cells.dom()
            &&& cells.contains_key(q) && area.holds(q.0 as int, q.1 as int) && area.holds(
                q.0 + off,
                q.1 as int,
            ) && cells.contains_key(((q.0 + off) as u16, q.1)) ==> shown[(
                (q.0 + off) as u16,
                q.1,
            )] == cells[q]
            &&& cells.contains_key(p) && !area.holds(p.0 as int, p.1 as int) ==> shown[p]
                == cells[p]
            &&& cells.contains_key(p) && area.holds(p.0 as int, p.1 as int) && p.0 >= area.x + off
                && !cells.contains_key(((p.0 - off) as u16, p.1)) ==> shown[p] == cells[p]
            &&& cells.contains_key(p) && area.holds(p.0 as int, p.1 as int) && p.0 < area.x + off
                ==> {
                &&& behind is Some && behind->0.contains_key(p) ==> shown[p] == behind->0[p]
                &&& behind is None ==> shown[p].symbol == seq![' '] && shown[p].background == 0
                    && !shown[p].reversed
            }
        }),
{
    assert(slid_in(cells, behind, area, off as int).dom() =~= cells.dom());
    if area.holds(q.0 + off, q.1 as int) {
        let to = ((q.0 + off) as u16, q.1);
        assert(((to.0 - off) as u16, to.1) == q);
    }
}

/// Each cell of a session that goes out is drawn so many columns further right, as long
/// as that is within the area. The columns before them, and everything outside of the
/// area, show what was there.
pub proof fn law_session_is_moved_out(
    cells: Map<(u16, u16), CellLook>,
    session: Map<(u16, u16), CellLook>,
    area: Rect,
    off: u16,
    q: (u16, u16),
    p: (u16, u16),
)
    requires
        area.fits(),
    ensures
        ({
            let shown = slid_out(cells, session, area, off as int);
            &&& shown.dom() == cells.dom()
            &&& session.contains_key(q) && area.holds(q.0 as int, q.1 as int) && area.holds(
                q.0 + off,
                q.1 as int,
            ) && cells.contains_key(((q.0 + off) as u16, q.1)) ==> shown[(
                (q.0 + off) as u16,
                q.1,
            )] == session[q]
            &&& cells.contains_key(p) && (!area.holds(p.0 as int, p.1 as int) || p.0 < area.x + off)
                ==> shown[p] == cells[p]
        }),
{
    assert(slid_out(cells, session, area, off as int).dom() =~= cells.dom());
    if area.holds(q.0 + off, q.1 as int) {
        let to = ((q.0 + off) as u16, q.1);
        assert(((to.0 - off) as u16, (to.1 + 0) as u16) == q);
    }
}

/// In a move between sessions each cell of the new one is drawn so many columns to the
/// right, wherever that is within the area, and so is each cell of the one that is left
/// where the new one is not. A place that neither reaches shows a space.
pub proof fn law_both_sessions_are_moved(
    cells: Map<(u16, u16), CellLook>,
    outgoing: Map<(u16, u16), CellLook>,
    area: Rect,
    in_by: int,
    out_by: int,
    q: (u16, u16),
    p: (u16, u16),
)
    requires
        area.fits(),
        area.holds(q.0 as int, q.1 as int),
        area.holds(p.0 as int, p.1 as int),
        cells.contains_key(p),
        q.1 == p.1,
    ensures
        ({
            let shown = passed(cells, outgoing, area, in_by, out_by);
            &&& p.0 == q.0 + in_by && cells.contains_key(q) ==> shown[p] == cells[q]
            &&& p.0 == q.0 + out_by && outgoing.contains_key(q) && !area.holds(
                p.0 - in_by,
                p.1 as int,
            ) ==> shown[p] == outgoing[q]
            &&& !area.holds(p.0 - in_by, p.1 as int) && !area.holds(p.0 - out_by, p.1 as int)
                ==> shown[p].symbol == seq![' '] && shown[p].background == 0 && !shown[p].reversed
        }),
{
    if p.0 == q.0 + in_by {
        assert(layer_cell(in_by, p) == q);
    }
    if p.0 == q.0 + out_by {
        assert(layer_cell(out_by, p) == q);
    }
}

/// A cell that shows nothing has a space in the terminal's own colours.
pub proof fn law_blank_shows_nothing()
    ensures
        blank().symbol.len() == 1,
        blank().symbol[0] as int == 32,
        blank().foreground == 0,
        blank().background == 0,
        !blank().reversed,
        blank().other == 0,
{
}

} // verus!
