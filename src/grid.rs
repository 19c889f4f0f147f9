//! Grid geometry: points and ranges of the character grid, the size of the
//! grid in cells and pixels, and the mapping from pixels to cells.

use vstd::prelude::*;

verus! {

/// A cell of the grid: a line (negative lines lie in the scrollback) and a
/// column.
#[derive(Clone, Copy, Debug, PartialEq, Eq, Structural, Hash, Default)]
pub struct GridPoint {
    pub line: i32,
    pub column: usize,
}

impl GridPoint {
    pub fn new(line: i32, column: usize) -> (r: GridPoint)
        ensures
            r.line == line,
            r.column == column,
    {
        GridPoint { line, column }
    }
}

/// Grid order: by line, then by column.
pub open spec fn point_le(a: GridPoint, b: GridPoint) -> bool {
    a.line < b.line || (a.line == b.line && a.column <= b.column)
}

/// The point at line `line` (counted from the top of the viewport) and
/// column `column`, when the viewport is scrolled `display_offset` lines back.
pub open spec fn viewport_point(display_offset: int, line: int, column: int) -> GridPoint {
    GridPoint { line: (line - display_offset) as i32, column: column as usize }
}

/// An inclusive range of grid points, such as a detected hyperlink.
#[derive(Clone, Copy, Debug, PartialEq, Eq, Structural, Hash)]
pub struct LinkRange {
    pub start: GridPoint,
    pub end: GridPoint,
}

impl LinkRange {
    /// Whether `p` lies between the two ends, in grid order.
    pub fn contains(&self, p: GridPoint) -> (r: bool)
        ensures
            r == (point_le(self.start, p) && point_le(p, self.end)),
    {
        let after_start = self.start.line < p.line || (self.start.line == p.line
            && self.start.column <= p.column);
        let before_end = p.line < self.end.line || (p.line == self.end.line && p.column
            <= self.end.column);
        after_start && before_end
    }
}

/// A selected range: from the top-left start to the bottom-right end,
/// either following the text (lines in between are whole) or a block.
#[derive(Clone, Copy, Debug, PartialEq, Eq, Structural, Hash)]
pub struct SelectionRange {
    pub start: GridPoint,
    pub end: GridPoint,
    pub is_block: bool,
}

pub open spec fn selection_contains(r: SelectionRange, p: GridPoint) -> bool {
    &&& r.start.line <= p.line
    &&& r.end.line >= p.line
    &&& (r.start.column <= p.column || (r.start.line != p.line && !r.is_block))
    &&& (r.end.column >= p.column || (r.end.line != p.line && !r.is_block))
}

impl SelectionRange {
    /// Whether `p` lies in the selection.
    pub fn contains(&self, p: GridPoint) -> (r: bool)
        ensures
            r == selection_contains(*self, p),
    {
        self.start.line <= p.line && self.end.line >= p.line && (self.start.column <= p.column
            || (self.start.line != p.line && !self.is_block)) && (self.end.column >= p.column || (
        self.end.line != p.line && !self.is_block))
    }
}

/// How a selection grows from its anchor.
#[derive(Clone, Copy, Debug, PartialEq, Eq, Structural, Hash)]
pub enum SelectionKind {
    Simple,
    Block,
    Semantic,
    Lines,
}

/// The half of a cell that a pixel falls in.
#[derive(Clone, Copy, Debug, PartialEq, Eq, Structural, Hash)]
pub enum Side {
    Left,
    Right,
}

/// A pixel position relative to the top-left corner of the terminal area.
#[derive(Clone, Copy, Debug, PartialEq, Eq, Structural, Hash, Default)]
pub struct Position {
    pub x: i32,
    pub y: i32,
}

/// An integer saturated to the `i32` range.
pub open spec fn clamp_i32(v: int) -> i32 {
    if v > i32::MAX {
        i32::MAX
    } else if v < i32::MIN {
        i32::MIN
    } else {
        v as i32
    }
}

/// The position of `p` relative to `origin`, saturated to the `i32` range.
pub open spec fn offset_from(p: Position, origin: Position) -> Position {
    Position { x: clamp_i32(p.x - origin.x), y: clamp_i32(p.y - origin.y) }
}

fn saturating_difference(a: i32, b: i32) -> (r: i32)
    ensures
        r == clamp_i32(a - b),
{
    let d = a as i64 - b as i64;
    if d > i32::MAX as i64 {
        i32::MAX
    } else if d < i32::MIN as i64 {
        i32::MIN
    } else {
        d as i32
    }
}

impl Position {
    pub fn new(x: i32, y: i32) -> (r: Position)
        ensures
            r.x == x,
            r.y == y,
    {
        Position { x, y }
    }

    /// This position relative to `origin`.
    pub fn offset_from(self, origin: Position) -> (r: Position)
        ensures
            r == offset_from(self, origin),
    {
        Position {
            x: saturating_difference(self.x, origin.x),
            y: saturating_difference(self.y, origin.y),
        }
    }
}

/// A size in whole pixels.
#[derive(Clone, Copy, Debug, PartialEq, Eq, Structural, Hash, Default)]
pub struct Size {
    pub width: u32,
    pub height: u32,
}

impl Size {
    pub fn new(width: u32, height: u32) -> (r: Size)
        ensures
            r.width == width,
            r.height == height,
    {
        Size { width, height }
    }
}

/// The size of the terminal: the pixel size of a cell, the number of
/// columns and lines of the grid, and the pixel size of the area the grid is
/// laid out in.
#[derive(Clone, Copy, Debug, PartialEq, Eq, Structural, Hash)]
pub struct TerminalSize {
    pub cell_width: u16,
    pub cell_height: u16,
    pub num_cols: u16,
    pub num_lines: u16,
    pub layout_width: u32,
    pub layout_height: u32,
}

impl Default for TerminalSize {
    fn default() -> (r: TerminalSize)
        ensures
            r == TerminalSize::spec_default(),
    {
        TerminalSize::default_size()
    }
}

/// A pixel length as a whole number of cells, saturated to the `u16` range.
pub open spec fn cells_in(pixels: int, cell: int) -> int {
    if pixels / cell > 65535 {
        65535
    } else {
        pixels / cell
    }
}

/// A pixel length saturated to the `u16` range.
pub open spec fn saturate_u16(n: int) -> int {
    if n > 65535 {
        65535
    } else {
        n
    }
}

/// The cell index of a pixel coordinate: negative coordinates count as 0,
/// and the index stops at the last of `count` cells.
pub open spec fn clamped_cell(pos: int, cell: int, count: int) -> int {
    let index = if pos < 0 {
        0
    } else {
        pos / cell
    };
    if index > count - 1 {
        count - 1
    } else {
        index
    }
}

impl TerminalSize {
    /// Cells have a nonzero size and the grid has at least one line and one
    /// column.
    pub open spec fn wf(&self) -> bool {
        &&& self.cell_width >= 1
        &&& self.cell_height >= 1
        &&& self.num_cols >= 1
        &&& self.num_lines >= 1
    }

    /// A grid of `num_cols` by `num_lines` cells of the given pixel size, laid
    /// out in exactly the pixels it needs.
    pub fn new(cell_width: u16, cell_height: u16, num_cols: u16, num_lines: u16) -> (r:
        TerminalSize)
        ensures
            r.cell_width == cell_width,
            r.cell_height == cell_height,
            r.num_cols == num_cols,
            r.num_lines == num_lines,
            r.layout_width == num_cols * cell_width,
            r.layout_height == num_lines * cell_height,
    {
        proof {
            lemma_product_fits(num_cols as int, cell_width as int);
            lemma_product_fits(num_lines as int, cell_height as int);
        }
        let w = num_cols as u32 * cell_width as u32;
        let h = num_lines as u32 * cell_height as u32;
        TerminalSize {
            cell_width,
            cell_height,
            num_cols,
            num_lines,
            layout_width: w,
            layout_height: h,
        }
    }

    pub open spec fn spec_default() -> TerminalSize {
        TerminalSize {
            cell_width: 1,
            cell_height: 1,
            num_cols: 80,
            num_lines: 50,
            layout_width: 80,
            layout_height: 50,
        }
    }

    /// The size before anything is known: 80 columns by 50 lines of one-pixel
    /// cells.
    pub fn default_size() -> (r: TerminalSize)
        ensures
            r.wf(),
            r == TerminalSize::spec_default(),
    {
        TerminalSize {
            cell_width: 1,
            cell_height: 1,
            num_cols: 80,
            num_lines: 50,
            layout_width: 80,
            layout_height: 50,
        }
    }

    /// The size at start-up: the default grid with cells of the measured
    /// size; a measured dimension that is zero keeps the default of one pixel.
    pub fn with_cell_size(cell: Size) -> (r: TerminalSize)
        ensures
            r.wf(),
            r == initial_size(cell),
    {
        let mut size = TerminalSize::default_size();
        if cell.width != 0 && cell.height != 0 {
            size.cell_width = saturating_u16(cell.width);
            size.cell_height = saturating_u16(cell.height);
        } else if cell.width != 0 {
            size.cell_width = saturating_u16(cell.width);
        } else if cell.height != 0 {
            size.cell_height = saturating_u16(cell.height);
        }
        size
    }

    /// Whether a resize lays out at least one line and one column; see
    /// [`TerminalSize::resized`].
    pub fn fits_after_resize(&self, layout: Option<Size>, cell: Option<Size>) -> (r: bool)
        ensures
            r == resize_fits(*self, layout, cell),
    {
        let (lw, lh) = match layout {
            Some(l) => (l.width, l.height),
            None => (self.layout_width, self.layout_height),
        };
        let (cw, ch): (u32, u32) = match cell {
            Some(c) => (saturating_u16(c.width) as u32, saturating_u16(c.height) as u32),
            None => (self.cell_width as u32, self.cell_height as u32),
        };
        cw >= 1 && ch >= 1 && lh / ch >= 1 && lw / cw >= 1
    }

    pub fn columns(&self) -> (r: usize)
        ensures
            r == self.num_cols,
    {
        self.num_cols as usize
    }

    pub fn screen_lines(&self) -> (r: usize)
        ensures
            r == self.num_lines,
    {
        self.num_lines as usize
    }

    /// The new size after the layout area and/or the cell size change: the
    /// given parts replace the old ones and the grid becomes the whole cells
    /// that fit in the area. When that leaves no line or no column (or a cell
    /// dimension is zero), nothing changes.
    pub fn resized(&self, layout: Option<Size>, cell: Option<Size>) -> (r: TerminalSize)
        requires
            self.wf(),
        ensures
            r.wf(),
            r == resized_size(*self, layout, cell),
            !resize_fits(*self, layout, cell) ==> r == *self,
    {
        let (lw, lh) = match layout {
            Some(l) => (l.width, l.height),
            None => (self.layout_width, self.layout_height),
        };
        let (cw, ch) = match cell {
            Some(c) => (saturating_u16(c.width), saturating_u16(c.height)),
            None => (self.cell_width, self.cell_height),
        };
        if cw == 0 || ch == 0 {
            return *self;
        }
        let lines = cell_count(lh, ch);
        let cols = cell_count(lw, cw);
        if lines > 0 && cols > 0 {
            TerminalSize {
                cell_width: cw,
                cell_height: ch,
                num_cols: cols,
                num_lines: lines,
                layout_width: lw,
                layout_height: lh,
            }
        } else {
            *self
        }
    }
}

/// The size at start-up; see [`TerminalSize::with_cell_size`].
pub open spec fn initial_size(cell: Size) -> TerminalSize {
    TerminalSize {
        cell_width: if cell.width == 0 {
            1
        } else {
            saturate_u16(cell.width as int) as u16
        },
        cell_height: if cell.height == 0 {
            1
        } else {
            saturate_u16(cell.height as int) as u16
        },
        num_cols: 80,
        num_lines: 50,
        layout_width: 80,
        layout_height: 50,
    }
}

/// The layout area after a resize.
pub open spec fn resized_layout(s: TerminalSize, layout: Option<Size>) -> (u32, u32) {
    match layout {
        Some(l) => (l.width, l.height),
        None => (s.layout_width, s.layout_height),
    }
}

/// The cell size after a resize, saturated to the `u16` range.
pub open spec fn resized_cell(s: TerminalSize, cell: Option<Size>) -> (int, int) {
    match cell {
        Some(c) => (saturate_u16(c.width as int), saturate_u16(c.height as int)),
        None => (s.cell_width as int, s.cell_height as int),
    }
}

/// Whether a resize lays out at least one line and one column.
pub open spec fn resize_fits(s: TerminalSize, layout: Option<Size>, cell: Option<Size>) -> bool {
    let (lw, lh) = resized_layout(s, layout);
    let (cw, ch) = resized_cell(s, cell);
    cw >= 1 && ch >= 1 && cells_in(lh as int, ch) >= 1 && cells_in(lw as int, cw) >= 1
}

/// The size after a resize; see [`TerminalSize::resized`].
pub open spec fn resized_size(s: TerminalSize, layout: Option<Size>, cell: Option<Size>) -> TerminalSize {
    let (lw, lh) = resized_layout(s, layout);
    let (cw, ch) = resized_cell(s, cell);
    if resize_fits(s, layout, cell) {
        TerminalSize {
            cell_width: cw as u16,
            cell_height: ch as u16,
            num_cols: cells_in(lw as int, cw) as u16,
            num_lines: cells_in(lh as int, ch) as u16,
            layout_width: lw,
            layout_height: lh,
        }
    } else {
        s
    }
}

proof fn lemma_product_fits(a: int, b: int)
    requires
        0 <= a <= 65535,
        0 <= b <= 65535,
    ensures
        0 <= a * b <= 65535 * 65535,
{
    assert(0 <= a * b <= 65535 * 65535) by (nonlinear_arith)
        requires
            0 <= a <= 65535,
            0 <= b <= 65535,
    ;
}

fn saturating_u16(n: u32) -> (r: u16)
    ensures
        r == saturate_u16(n as int),
{
    if n > 65535 {
        65535
    } else {
        n as u16
    }
}

fn cell_count(pixels: u32, cell: u16) -> (r: u16)
    requires
        cell >= 1,
    ensures
        r == cells_in(pixels as int, cell as int),
{
    let q = pixels / cell as u32;
    if q > 65535 {
        65535
    } else {
        q as u16
    }
}

/// The grid point under a pixel position; see [`selection_point`].
pub open spec fn pixel_point(x: int, y: int, size: TerminalSize, display_offset: int) -> GridPoint {
    viewport_point(
        display_offset,
        clamped_cell(y, size.cell_height as int, size.num_lines as int),
        clamped_cell(x, size.cell_width as int, size.num_cols as int),
    )
}

/// The half of its cell that a horizontal pixel position falls in; see
/// [`selection_side`].
pub open spec fn pixel_side(x: int, cell_width: int) -> Side {
    if (if x < 0 {
        0
    } else {
        x
    }) % cell_width * 2 >= cell_width {
        Side::Right
    } else {
        Side::Left
    }
}

/// The grid point under a pixel position of the terminal area: the column
/// and the viewport line are clamped to the grid, then the line is shifted
/// into the scrollback by `display_offset`.
pub fn selection_point(x: i32, y: i32, terminal_size: &TerminalSize, display_offset: usize) -> (r:
    GridPoint)
    requires
        terminal_size.wf(),
        display_offset <= i32::MAX,
    ensures
        r == pixel_point(x as int, y as int, *terminal_size, display_offset as int),
        0 <= r.column < terminal_size.num_cols,
        0 <= r.line + display_offset < terminal_size.num_lines,
{
    let col = pixel_to_cell(x, terminal_size.cell_width, terminal_size.num_cols);
    let line = pixel_to_cell(y, terminal_size.cell_height, terminal_size.num_lines);
    GridPoint { line: line as i32 - display_offset as i32, column: col as usize }
}

fn pixel_to_cell(pos: i32, cell: u16, count: u16) -> (r: u16)
    requires
        cell >= 1,
        count >= 1,
    ensures
        r == clamped_cell(pos as int, cell as int, count as int),
{
    let index: u32 = if pos < 0 {
        0
    } else {
        pos as u32 / cell as u32
    };
    if index > count as u32 - 1 {
        count - 1
    } else {
        index as u16
    }
}

/// Which half of its cell a horizontal pixel position falls in: an offset
/// into the cell of at least half the cell width is the right half.
pub fn selection_side(x: i32, cell_width: u16) -> (r: Side)
    requires
        cell_width >= 1,
    ensures
        r == pixel_side(x as int, cell_width as int),
{
    let px: u32 = if x < 0 {
        0
    } else {
        x as u32
    };
    let cell_x = px % cell_width as u32;
    if cell_x * 2 >= cell_width as u32 {
        Side::Right
    } else {
        Side::Left
    }
}

} // verus!
