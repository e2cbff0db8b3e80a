//! Rectangles of terminal cells, and the places of popups.

use vstd::prelude::*;

verus! {

/// A rectangle of cells. Its right and bottom edges are the first column and row
/// outside of it, and never beyond the largest coordinate.
#[derive(Debug, Clone, Copy, PartialEq, Eq, Structural)]
pub struct Rect {
    pub x: u16,
    pub y: u16,
    pub width: u16,
    pub height: u16,
}

/// The sum of two coordinates, or the largest one.
pub open spec fn capped(a: int, b: int) -> int {
    if a + b > u16::MAX {
        u16::MAX as int
    } else {
        a + b
    }
}

/// The difference of two coordinates, or zero.
pub open spec fn floored(a: int, b: int) -> int {
    if a < b {
        0
    } else {
        a - b
    }
}

/// The smaller of two numbers.
pub open spec fn smaller(a: int, b: int) -> int {
    if a < b {
        a
    } else {
        b
    }
}

/// The larger of two numbers.
pub open spec fn larger(a: int, b: int) -> int {
    if a > b {
        a
    } else {
        b
    }
}

impl Rect {
    /// The first column to the right.
    pub open spec fn right_edge(self) -> int {
        capped(self.x as int, self.width as int)
    }

    /// The first row below.
    pub open spec fn bottom_edge(self) -> int {
        capped(self.y as int, self.height as int)
    }

    /// Whether a cell is inside.
    pub open spec fn holds(self, x: int, y: int) -> bool {
        self.x <= x < self.right_edge() && self.y <= y < self.bottom_edge()
    }

    /// Whether another rectangle is inside.
    pub open spec fn covers(self, other: Rect) -> bool {
        &&& self.x <= other.x
        &&& self.y <= other.y
        &&& other.x + other.width <= self.x + self.width
        &&& other.y + other.height <= self.y + self.height
    }

    /// Whether no coordinate inside is beyond the largest one.
    pub open spec fn fits(self) -> bool {
        self.x + self.width <= u16::MAX && self.y + self.height <= u16::MAX
    }

    /// A rectangle, made smaller where it would reach beyond the largest coordinate.
    pub open spec fn cut(x: int, y: int, width: int, height: int) -> Rect {
        Rect {
            x: x as u16,
            y: y as u16,
            width: smaller(width, u16::MAX - x) as u16,
            height: smaller(height, u16::MAX - y) as u16,
        }
    }

    /// Make a rectangle.
    pub fn new(x: u16, y: u16, width: u16, height: u16) -> (r: Rect)
        ensures
            r == Rect::cut(x as int, y as int, width as int, height as int),
            r.fits(),
    {
        let max_width: u16 = u16::MAX - x;
        let max_height: u16 = u16::MAX - y;
        Rect {
            x,
            y,
            width: if width < max_width {
                width
            } else {
                max_width
            },
            height: if height < max_height {
                height
            } else {
                max_height
            },
        }
    }

    pub fn left(self) -> (r: u16)
        ensures
            r == self.x,
    {
        self.x
    }

    pub fn top(self) -> (r: u16)
        ensures
            r == self.y,
    {
        self.y
    }

    /// The first column to the right.
    pub fn right(self) -> (r: u16)
        ensures
            r == self.right_edge(),
    {
        self.x.saturating_add(self.width)
    }

    /// The first row below.
    pub fn bottom(self) -> (r: u16)
        ensures
            r == self.bottom_edge(),
    {
        self.y.saturating_add(self.height)
    }

    /// The cells that two rectangles share.
    pub open spec fn shared(self, other: Rect) -> Rect {
        let x = larger(self.x as int, other.x as int);
        let y = larger(self.y as int, other.y as int);
        Rect {
            x: x as u16,
            y: y as u16,
            width: floored(smaller(self.right_edge(), other.right_edge()), x) as u16,
            height: floored(smaller(self.bottom_edge(), other.bottom_edge()), y) as u16,
        }
    }

    /// The cells that two rectangles share.
    pub fn intersection(self, other: Rect) -> (r: Rect)
        ensures
            r == self.shared(other),
    {
        let x: u16 = if self.x > other.x {
            self.x
        } else {
            other.x
        };
        let y: u16 = if self.y > other.y {
            self.y
        } else {
            other.y
        };
        let right: u16 = if self.right() < other.right() {
            self.right()
        } else {
            other.right()
        };
        let bottom: u16 = if self.bottom() < other.bottom() {
            self.bottom()
        } else {
            other.bottom()
        };
        Rect { x, y, width: right.saturating_sub(x), height: bottom.saturating_sub(y) }
    }

    /// What is left inside a border of one cell; nothing at all where there is no
    /// room for it.
    pub open spec fn inside_border(self) -> Rect {
        if self.width < 2 || self.height < 2 {
            Rect { x: 0, y: 0, width: 0, height: 0 }
        } else {
            Rect {
                x: capped(self.x as int, 1) as u16,
                y: capped(self.y as int, 1) as u16,
                width: (self.width - 2) as u16,
                height: (self.height - 2) as u16,
            }
        }
    }

    /// What is left inside a border of one cell.
    pub fn inner(self) -> (r: Rect)
        ensures
            r == self.inside_border(),
    {
        if self.width < 2 || self.height < 2 {
            Rect { x: 0, y: 0, width: 0, height: 0 }
        } else {
            Rect {
                x: self.x.saturating_add(1),
                y: self.y.saturating_add(1),
                width: self.width - 2,
                height: self.height - 2,
            }
        }
    }
}

/// Exactly the cells of both rectangles are in what they share.
pub proof fn law_intersection_holds(a: Rect, b: Rect, x: int, y: int)
    ensures
        a.shared(b).holds(x, y) <==> a.holds(x, y) && b.holds(x, y),
{
}

/// The size of a popup: as desired, but at least the minimum and at most what there
/// is, and what there is where that is less than the minimum.
pub open spec fn fitted(desired: int, min: int, avail: int) -> int {
    if desired > avail {
        avail
    } else if desired < smaller(min, avail) {
        smaller(min, avail)
    } else {
        desired
    }
}

/// Fit a popup's size into what there is.
pub fn fit_popup(desired: u16, min: u16, avail: u16) -> (r: u16)
    ensures
        r == fitted(desired as int, min as int, avail as int),
{
    let low: u16 = if min < avail {
        min
    } else {
        avail
    };
    if desired < low {
        low
    } else if desired > avail {
        avail
    } else {
        desired
    }
}

/// A popup is never larger than what there is; where there is room for the minimum it
/// is never smaller, and where there is room for what is desired it is that or the
/// minimum, whichever is more.
pub proof fn law_fit_popup_bounds(desired: int, min: int, avail: int)
    ensures
        fitted(desired, min, avail) <= avail,
        min <= avail ==> fitted(desired, min, avail) >= min,
        desired <= avail && min <= avail ==> fitted(desired, min, avail) == larger(desired, min),
{
}

/// A rectangle of a size in the middle of an area.
pub open spec fn centered(area: Rect, width: int, height: int) -> Rect {
    Rect::cut(
        area.x + floored(area.width as int, width) / 2,
        area.y + floored(area.height as int, height) / 2,
        width,
        height,
    )
}

/// Put a rectangle of a size in the middle of an area.
pub fn center(area: Rect, width: u16, height: u16) -> (r: Rect)
    requires
        area.fits(),
    ensures
        r == centered(area, width as int, height as int),
{
    let x: u16 = area.x + area.width.saturating_sub(width) / 2;
    let y: u16 = area.y + area.height.saturating_sub(height) / 2;
    Rect::new(x, y, width, height)
}

/// A rectangle no larger than an area stays inside of it when it is put in its
/// middle, and keeps its size.
pub proof fn law_centered_stays_inside(area: Rect, width: int, height: int)
    requires
        area.fits(),
        0 <= width <= area.width,
        0 <= height <= area.height,
    ensures
        area.covers(centered(area, width, height)),
        centered(area, width, height).width == width,
        centered(area, width, height).height == height,
{
}

/// One row of an area, or no row where it is outside.
pub open spec fn row_of(area: Rect, y: int) -> Rect {
    if area.y <= y < area.y + area.height {
        Rect::cut(area.x as int, y, area.width as int, 1)
    } else {
        Rect::cut(area.x as int, area.y as int, area.width as int, 0)
    }
}

/// One row of an area, or no row where it is outside, which nothing is drawn into.
pub fn row_in(area: Rect, y: u16) -> (r: Rect)
    requires
        area.fits(),
    ensures
        r == row_of(area, y as int),
{
    if y >= area.y && y < area.y + area.height {
        Rect::new(area.x, y, area.width, 1)
    } else {
        Rect::new(area.x, area.y, area.width, 0)
    }
}

/// A row of an area is inside of it, or empty.
pub proof fn law_row_stays_inside(area: Rect, y: int)
    requires
        area.fits(),
    ensures
        row_of(area, y).height <= 1,
        row_of(area, y).height == 1 ==> area.covers(row_of(area, y)) && row_of(area, y).y == y,
{
}

/// A rectangle that ends within the coordinates is made as it is asked for; any other
/// keeps its corner and ends at the largest coordinate.
pub proof fn law_rect_is_made_as_asked(x: int, y: int, width: int, height: int)
    requires
        0 <= x <= u16::MAX,
        0 <= y <= u16::MAX,
        0 <= width <= u16::MAX,
        0 <= height <= u16::MAX,
    ensures
        ({
            let r = Rect::cut(x, y, width, height);
            &&& r.fits()
            &&& r.x == x && r.y == y
            &&& (x + width <= u16::MAX ==> r.width == width)
            &&& (y + height <= u16::MAX ==> r.height == height)
            &&& (x + width > u16::MAX ==> r.x + r.width == u16::MAX)
            &&& (y + height > u16::MAX ==> r.y + r.height == u16::MAX)
        }),
{
}

/// The edges of a rectangle that ends within the coordinates are its corner and its
/// size, and its cells are those between them.
pub proof fn law_edges(r: Rect, x: int, y: int)
    requires
        r.fits(),
    ensures
        r.right_edge() == r.x + r.width,
        r.bottom_edge() == r.y + r.height,
        r.holds(x, y) <==> r.x <= x < r.x + r.width && r.y <= y < r.y + r.height,
{
}

/// Inside a border are the cells that are not on the edge.
pub proof fn law_border_is_one_cell(r: Rect, x: int, y: int)
    requires
        r.fits(),
    ensures
        r.inside_border().holds(x, y) <==> r.x < x < r.x + r.width - 1 && r.y < y < r.y + r.height
            - 1,
{
}

/// The margins on both sides of what stands in the middle differ by one cell at most,
/// and the larger one is to the right and below.
pub proof fn law_centered_is_in_the_middle(area: Rect, width: int, height: int)
    requires
        area.fits(),
        0 <= width <= area.width,
        0 <= height <= area.height,
    ensures
        ({
            let r = centered(area, width, height);
            let left = r.x - area.x;
            let right = area.x + area.width - (r.x + r.width);
            let top = r.y - area.y;
            let bottom = area.y + area.height - (r.y + r.height);
            0 <= left <= right <= left + 1 && 0 <= top <= bottom <= top + 1
        }),
{
}

/// A popup gets what is desired where that is between the minimum and what there is,
/// and otherwise the bound that it breaks; what there is wins over the minimum.
pub proof fn law_fit_popup_exact(desired: int, min: int, avail: int)
    ensures
        avail <= min ==> fitted(desired, min, avail) == avail,
        avail <= desired ==> fitted(desired, min, avail) == avail,
        desired <= min <= avail ==> fitted(desired, min, avail) == min,
        min <= desired <= avail ==> fitted(desired, min, avail) == desired,
{
}

/// The cells of a row of an area are the cells of the area in that row.
pub proof fn law_row_holds(area: Rect, row: int, x: int, y: int)
    requires
        area.fits(),
    ensures
        row_of(area, row).holds(x, y) <==> area.holds(x, y) && y == row,
{
}

} // verus!
