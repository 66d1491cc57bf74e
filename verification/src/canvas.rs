//! The grid of cells that widgets are drawn into, and what the three
//! drawings that the modals use do to it.
//!
//! The grid is ratatui's `Buffer` and the drawings are ratatui's widgets.
//! This module says what it takes of them on trust: what a buffer holds, and
//! what each drawing leaves in which cells, symbol and style.

use vstd::prelude::*;
use crate::layout::Area;
use ratatui::buffer::Buffer;
use ratatui::layout::Rect;
use ratatui::text::Line;
use ratatui::widgets::{Block, Borders, Clear, Paragraph, Widget};

verus! {

/// `ratatui::buffer::Buffer`, a grid of cells, each with a symbol and a
/// style, that stands for a rectangle of the terminal.
#[verifier::external_type_specification]
#[verifier::external_body]
pub struct ExBuffer(Buffer);

/// The rectangle of the terminal that the buffer stands for: its field `area`.
pub uninterp spec fn extent(buffer: Buffer) -> Area;

/// A colour of a cell: ratatui's `Color`, variant for variant.
#[derive(Clone, Copy, Debug, PartialEq, Eq, Structural)]
pub enum Color {
    Reset,
    Black,
    Red,
    Green,
    Yellow,
    Blue,
    Magenta,
    Cyan,
    Gray,
    DarkGray,
    LightRed,
    LightGreen,
    LightYellow,
    LightBlue,
    LightMagenta,
    LightCyan,
    White,
    Rgb(u8, u8, u8),
    Indexed(u8),
}

/// One cell of a buffer: ratatui's `Cell`, field for field. The symbol is
/// the cell's string as characters, and `modifier` holds the bits of the
/// cell's text attributes.
pub struct Cell {
    pub symbol: Seq<char>,
    pub fg: Color,
    pub bg: Color,
    pub underline_color: Color,
    pub modifier: u16,
    pub skip: bool,
}

impl Cell {
    /// The cell as it is after a reset: a single space, no colour of its
    /// own, no text attribute, not skipped.
    pub open spec fn blank() -> Cell {
        Cell {
            symbol: seq![' '],
            fg: Color::Reset,
            bg: Color::Reset,
            underline_color: Color::Reset,
            modifier: 0,
            skip: false,
        }
    }

    /// The cell with the one character `c` as its symbol and its style as
    /// it was.
    pub open spec fn with_symbol(self, c: char) -> Cell {
        Cell {
            symbol: seq![c],
            fg: self.fg,
            bg: self.bg,
            underline_color: self.underline_color,
            modifier: self.modifier,
            skip: self.skip,
        }
    }
}

/// The cells that the buffer holds, in the order in which it keeps them in
/// its field `content`: row after row from the top, each row from the left.
pub uninterp spec fn cells(buffer: Buffer) -> Seq<Cell>;

/// What a grid shows: the cell at each position, a position being a pair of
/// a column and a row.
pub type Screen = Map<(int, int), Cell>;

/// A buffer as ratatui makes them: its rectangle has `u16` columns and rows
/// and at most `u16::MAX` cells, and the buffer holds one cell for each.
pub open spec fn well_formed(buffer: Buffer) -> bool {
    let e = extent(buffer);
    &&& e.on_grid()
    &&& e.width * e.height <= u16::MAX
    &&& cells(buffer).len() == e.width * e.height
}

/// The cell that the buffer holds for column `x` and row `y`.
pub open spec fn cell_at(buffer: Buffer, x: int, y: int) -> Cell {
    let e = extent(buffer);
    cells(buffer)[(y - e.y) * e.width + (x - e.x)]
}

/// What the buffer shows, position by position.
pub open spec fn screen(buffer: Buffer) -> Screen {
    Map::new(
        |p: (int, int)| extent(buffer).covers(p.0, p.1),
        |p: (int, int)| cell_at(buffer, p.0, p.1),
    )
}

/// Two buffers for the same rectangle, with as many cells.
pub open spec fn same_shape(a: Buffer, b: Buffer) -> bool {
    extent(a) == extent(b) && cells(a).len() == cells(b).len()
}

/// Whether a widget may be drawn into `area` of a buffer for `extent`: the
/// area holds no cell, or lies inside the buffer's rectangle.
pub open spec fn drawable(area: Area, extent: Area) -> bool {
    area.is_empty() || area.within(extent)
}

/// `before` with every cell of `area` reset.
pub open spec fn cleared(before: Screen, area: Area) -> Screen {
    Map::new(
        |p: (int, int)| before.dom().contains(p),
        |p: (int, int)|
            if area.covers(p.0, p.1) {
                Cell::blank()
            } else {
                before[p]
            },
    )
}

/// The line-drawing character that a plain border around `area` has at
/// column `x` and row `y`, if that cell is on the border: a corner piece in
/// the four corners, a horizontal line along the top and the bottom row, a
/// vertical line along the left and the right column. Where the area is one
/// cell wide or high and two corners fall on one cell, the top left one wins
/// over the bottom left, that over the top right, that over the bottom right.
pub open spec fn border_symbol(area: Area, x: int, y: int) -> Option<char> {
    let left = x == area.x;
    let right = x == area.right() - 1;
    let top = y == area.y;
    let bottom = y == area.bottom() - 1;
    if !area.covers(x, y) {
        None
    } else if left && top {
        Some('\u{250c}')
    } else if left && bottom {
        Some('\u{2514}')
    } else if right && top {
        Some('\u{2510}')
    } else if right && bottom {
        Some('\u{2518}')
    } else if top || bottom {
        Some('\u{2500}')
    } else if left || right {
        Some('\u{2502}')
    } else {
        None
    }
}

/// `before` with a plain border drawn along the edge of `area`. The border
/// is drawn in the style that each of its cells has, and all other cells
/// stay as they are.
pub open spec fn framed(before: Screen, area: Area) -> Screen {
    Map::new(
        |p: (int, int)| before.dom().contains(p),
        |p: (int, int)|
            match border_symbol(area, p.0, p.1) {
                Some(c) => before[p].with_symbol(c),
                None => before[p],
            },
    )
}

/// A character that fills exactly one cell: printable ASCII.
pub open spec fn printable(c: char) -> bool {
    32 <= c as u32 <= 126
}

/// Text made of characters that fill one cell each.
pub open spec fn printable_text(lines: Seq<Seq<char>>) -> bool {
    forall|i: int, j: int|
        0 <= i < lines.len() && 0 <= j < lines[i].len() ==> printable(#[trigger] lines[i][j])
}

/// Text of which no line is longer than a row of the grid can be.
pub open spec fn short_text(lines: Seq<Seq<char>>) -> bool {
    forall|i: int| 0 <= i < lines.len() ==> (#[trigger] lines[i]).len() <= u16::MAX
}

/// `before` with `lines` written into `area`, one line to a row from the top
/// row down and each from the left edge on. Lines that have no row and
/// characters that have no column are left out. Each character is written
/// in the style that its cell has, and a cell that gets no character stays
/// as it is.
pub open spec fn lettered(before: Screen, area: Area, lines: Seq<Seq<char>>) -> Screen {
    Map::new(
        |p: (int, int)| before.dom().contains(p),
        |p: (int, int)|
            {
                let col = p.0 - area.x;
                let row = p.1 - area.y;
                if area.covers(p.0, p.1) && row < lines.len() && col < lines[row].len() {
                    before[p].with_symbol(lines[row][col])
                } else {
                    before[p]
                }
            },
    )
}

/// The texts of `lines`, as sequences of characters.
pub open spec fn texts(lines: Seq<&'static str>) -> Seq<Seq<char>> {
    Seq::new(lines.len(), |i: int| lines[i]@)
}

/// Whether the buffer is as ratatui makes them.
pub fn is_well_formed(buffer: &Buffer) -> (r: bool)
    ensures
        r == well_formed(*buffer),
{
    let e = area_of(buffer);
    let count = cell_count(buffer);
    assert(e.width * e.height <= 0xffff * 0xffff) by (nonlinear_arith)
        requires
            e.width <= 0xffff,
            e.height <= 0xffff,
    ;
    let cells: u64 = (e.width as u64) * (e.height as u64);
    (e.x as u64) + (e.width as u64) <= 0xffff && (e.y as u64) + (e.height as u64) <= 0xffff
        && cells <= 0xffff && count as u64 == cells
}

/// Calls `Buffer::area`, which hands out the buffer's field `area`.
#[verifier::external_body]
pub(crate) fn area_of(buffer: &Buffer) -> (r: Area)
    ensures
        r == extent(*buffer),
{
    let rect: &Rect = buffer.area();
    Area { x: rect.x, y: rect.y, width: rect.width, height: rect.height }
}

/// Calls `Buffer::content`, which hands out the buffer's cells as a slice,
/// and takes the length of the slice.
#[verifier::external_body]
pub(crate) fn cell_count(buffer: &Buffer) -> (r: usize)
    ensures
        r == cells(*buffer).len(),
{
    buffer.content().len()
}

/// Calls `Widget::render` on ratatui's `Clear`, which calls `Cell::reset`
/// on every cell of `area`: the symbol becomes a single space, the three
/// colours `Color::Reset`, the modifier empty and `skip` false. Cells
/// outside the area are not touched. ratatui indexes the buffer without a
/// check of its own, hence the two demands.
#[verifier::external_body]
pub(crate) fn draw_clear(buffer: &mut Buffer, area: Area)
    requires
        well_formed(*old(buffer)),
        drawable(area, extent(*old(buffer))),
    ensures
        same_shape(*old(buffer), *final(buffer)),
        screen(*final(buffer)) == cleared(screen(*old(buffer)), area),
{
    Clear.render(Rect { x: area.x, y: area.y, width: area.width, height: area.height }, buffer);
}

/// Calls `Widget::render` on a ratatui `Block` with all four borders, of the
/// plain border type and without title, padding or style. An area without
/// cells is left alone. Otherwise the block writes the vertical line down the
/// left and the right column and the horizontal line along the top and the
/// bottom row, then the corners, bottom right first and top left last; it
/// changes no other symbol. Its two styles are the default one, which sets
/// no colour and adds and removes no modifier, so every cell keeps its
/// style. ratatui
/// indexes the buffer without a check of its own, hence the two demands.
#[verifier::external_body]
pub(crate) fn draw_panel(buffer: &mut Buffer, area: Area)
    requires
        well_formed(*old(buffer)),
        drawable(area, extent(*old(buffer))),
    ensures
        same_shape(*old(buffer), *final(buffer)),
        screen(*final(buffer)) == framed(screen(*old(buffer)), area),
{
    let block = Block::default().borders(Borders::ALL);
    block.render(Rect { x: area.x, y: area.y, width: area.width, height: area.height }, buffer);
}

/// Calls `Widget::render` on a ratatui `Paragraph` of `lines`, each line a
/// single unstyled span, left aligned, neither wrapped nor scrolled. The
/// paragraph takes the lines in turn for the rows of the area, as many as
/// there are rows, and of each line the characters that fit into the area's
/// width; it writes each character into its cell and no other symbol. Its
/// style and that of every span is the default one, which sets no colour and
/// adds and removes no modifier, so every cell keeps its style. That a
/// character takes one cell is true of printable ASCII, which is all that
/// may be handed in. ratatui indexes the buffer without a check of its own,
/// hence the first two demands, and it adds up the width of a line in
/// `u16`, hence the last.
#[verifier::external_body]
pub(crate) fn draw_text(buffer: &mut Buffer, area: Area, lines: &Vec<&'static str>)
    requires
        well_formed(*old(buffer)),
        drawable(area, extent(*old(buffer))),
        printable_text(texts(lines@)),
        short_text(texts(lines@)),
    ensures
        same_shape(*old(buffer), *final(buffer)),
        screen(*final(buffer)) == lettered(screen(*old(buffer)), area, texts(lines@)),
{
    let text: Vec<Line> = lines.iter().map(|line| Line::from(*line)).collect();
    let paragraph = Paragraph::new(text);
    paragraph.render(Rect { x: area.x, y: area.y, width: area.width, height: area.height }, buffer);
}

} // verus!
