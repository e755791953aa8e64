use vstd::prelude::*;

use crate::language_support::highlight::{Color, RGBColor};
use crate::text::str_chars;
use crate::vec2::U16Vec2;

verus! {

/// The shape of the terminal cursor.
#[derive(Clone, Copy, Debug, PartialEq, Eq, Structural, Hash)]
pub enum CursorStyle {
    SteadyBlock,
    SteadyBar,
}

/// A color laid over a stretch of a row: the text color, or the background.
#[derive(Clone, Copy, Debug, PartialEq, Eq, Structural)]
pub enum ColorToken {
    Fg(Color),
    Bg(RGBColor),
}

/// A color laid over row `y` from column `start` up to `end`.
#[derive(Clone, Copy, Debug, PartialEq, Eq, Structural)]
pub struct ColorSpan {
    pub y: u16,
    pub start: u16,
    pub end: u16,
    pub token: ColorToken,
}

/// What a renderer holds: the character grid, the cursor, and the colors laid over the grid.
pub struct RendererView {
    pub size: U16Vec2,
    pub grid: Seq<Seq<char>>,
    pub cursor_pos: U16Vec2,
    pub cursor_style: Option<CursorStyle>,
    pub colors: Seq<ColorSpan>,
}

/// The grid after writing `text` on row `y` from column `x`; a row that does not exist is
/// left alone.
pub open spec fn write_text(grid: Seq<Seq<char>>, x: int, y: int, text: Seq<char>) -> Seq<Seq<char>> {
    if 0 <= y < grid.len() {
        grid.update(y, grid[y].take(x) + text + grid[y].skip(x + text.len()))
    } else {
        grid
    }
}

/// Whether `text` fits on row `y` from column `x`, where there is such a row.
pub open spec fn text_fits_row(grid: Seq<Seq<char>>, x: int, y: int, text: Seq<char>) -> bool {
    0 <= y < grid.len() ==> x + text.len() <= grid[y].len()
}

/// The grid after drawing the rows of `child` from row `y` on, each from column `x`.
pub open spec fn paste_grid(grid: Seq<Seq<char>>, child: Seq<Seq<char>>, x: int, y: int) -> Seq<Seq<char>>
    decreases child.len(),
{
    if child.len() == 0 {
        grid
    } else {
        write_text(paste_grid(grid, child.drop_last(), x, y), x, y + child.len() - 1, child.last())
    }
}

/// Whether each row of `child` fits, from column `x`, on the row `y` below it where there is one.
pub open spec fn child_fits(grid: Seq<Seq<char>>, child: Seq<Seq<char>>, x: int, y: int) -> bool {
    forall|i: int| 0 <= i < child.len() ==> text_fits_row(grid, x, y + i, #[trigger] child[i])
}

/// A screen drawn in memory: a grid of characters, a cursor, and colors over the grid.
pub struct UIRenderer {
    size: U16Vec2,
    buf: Vec<Vec<char>>,
    cursor_pos: U16Vec2,
    cursor_style: Option<CursorStyle>,
    colors: Vec<ColorSpan>,
}

impl View for UIRenderer {
    type V = RendererView;

    closed spec fn view(&self) -> RendererView {
        RendererView {
            size: self.size,
            grid: Seq::new(self.buf@.len(), |i: int| self.buf@[i]@),
            cursor_pos: self.cursor_pos,
            cursor_style: self.cursor_style,
            colors: self.colors@,
        }
    }
}

impl UIRenderer {
    /// A blank screen of `size`: `size.y` rows of `size.x` spaces, the cursor hidden at the origin.
    pub fn new(size: U16Vec2) -> (r: Self)
        ensures
            r@.size == size,
            r@.grid == Seq::new(size.y as nat, |i: int| Seq::new(size.x as nat, |j: int| ' ')),
            r@.cursor_pos == (U16Vec2 { x: 0, y: 0 }),
            r@.cursor_style is None,
            r@.colors.len() == 0,
    {
        let mut buf: Vec<Vec<char>> = Vec::new();
        let mut y: u16 = 0;
        while y < size.y
            invariant
                y <= size.y,
                buf@.len() == y,
                forall|i: int| 0 <= i < y ==> (#[trigger] buf@[i])@ == Seq::new(size.x as nat, |j: int| ' '),
            decreases size.y - y,
        {
            let mut line: Vec<char> = Vec::new();
            let mut x: u16 = 0;
            while x < size.x
                invariant
                    x <= size.x,
                    line@ == Seq::new(x as nat, |j: int| ' '),
                decreases size.x - x,
            {
                line.push(' ');
                assert(line@ =~= Seq::new((x + 1) as nat, |j: int| ' '));
                x = x + 1;
            }
            buf.push(line);
            y = y + 1;
        }
        let r = UIRenderer { size, buf, cursor_pos: U16Vec2::zero(), cursor_style: None, colors: Vec::new() };
        assert(r@.grid =~= Seq::new(size.y as nat, |i: int| Seq::new(size.x as nat, |j: int| ' ')));
        r
    }

    /// Writes the characters of `text` on row `pos.y` from column `pos.x`; nothing where
    /// there is no such row.
    pub fn render_text(&mut self, text: String, pos: U16Vec2)
        requires
            text_fits_row(old(self)@.grid, pos.x as int, pos.y as int, text@),
        ensures
            final(self)@.grid == write_text(old(self)@.grid, pos.x as int, pos.y as int, text@),
            final(self)@.size == old(self)@.size,
            final(self)@.cursor_pos == old(self)@.cursor_pos,
            final(self)@.cursor_style == old(self)@.cursor_style,
            final(self)@.colors == old(self)@.colors,
    {
        let y = pos.y as usize;
        if y >= self.buf.len() {
            return;
        }
        let chars = str_chars(text.as_str());
        let start = pos.x as usize;
        let mut line = self.buf[y].clone();
        let ghost orig = line@;
        let n = line.len();
        let mut index: usize = 0;
        while index < chars.len()
            invariant
                0 <= index <= chars@.len(),
                start + chars@.len() <= orig.len(),
                orig.len() == n,
                line@ == orig.take(start as int) + chars@.take(index as int) + orig.skip(start + index),
            decreases chars@.len() - index,
        {
            line.set(start + index, chars[index]);
            assert(line@ =~= orig.take(start as int) + chars@.take(index + 1) + orig.skip(start + index + 1));
            index = index + 1;
        }
        assert(chars@.take(chars@.len() as int) =~= chars@);
        self.buf.set(y, line);
        assert(self@.grid =~= write_text(old(self)@.grid, pos.x as int, pos.y as int, text@));
    }

    /// Places the cursor and sets its shape; `None` hides it.
    pub fn set_cursor(&mut self, pos: U16Vec2, style: Option<CursorStyle>)
        ensures
            final(self)@.cursor_pos == pos,
            final(self)@.cursor_style == style,
            final(self)@.grid == old(self)@.grid,
            final(self)@.size == old(self)@.size,
            final(self)@.colors == old(self)@.colors,
    {
        self.cursor_pos = pos;
        self.cursor_style = style;
    }

    /// Lays `token` over row `y` from column `start` up to `end`.
    pub fn add_color_token(&mut self, y: u16, start: u16, end: u16, token: ColorToken)
        ensures
            final(self)@.colors == old(self)@.colors.push((ColorSpan { y, start, end, token })),
            final(self)@.grid == old(self)@.grid,
            final(self)@.size == old(self)@.size,
            final(self)@.cursor_pos == old(self)@.cursor_pos,
            final(self)@.cursor_style == old(self)@.cursor_style,
    {
        self.colors.push(ColorSpan { y, start, end, token });
    }

    /// The rows of the screen as strings.
    pub fn lines(&self) -> (r: Vec<String>)
        ensures
            r@.len() == self@.grid.len(),
            forall|i: int| 0 <= i < r@.len() ==> (#[trigger] r@[i])@ == self@.grid[i],
    {
        let mut out: Vec<String> = Vec::new();
        let mut y: usize = 0;
        while y < self.buf.len()
            invariant
                0 <= y <= self.buf@.len(),
                out@.len() == y,
                forall|i: int| 0 <= i < y ==> (#[trigger] out@[i])@ == self.buf@[i]@,
            decreases self.buf@.len() - y,
        {
            let row = &self.buf[y];
            let mut s = String::new();
            let mut x: usize = 0;
            while x < row.len()
                invariant
                    0 <= x <= row@.len(),
                    s@ == row@.take(x as int),
                decreases row@.len() - x,
            {
                crate::text::string_push(&mut s, row[x]);
                assert(s@ =~= row@.take(x + 1));
                x = x + 1;
            }
            assert(row@.take(row@.len() as int) =~= row@);
            out.push(s);
            y = y + 1;
        }
        out
    }

    /// Whether `len` characters fit on row `y` from column `x`, where there is such a row.
    pub fn fits_row(&self, x: usize, y: usize, len: usize) -> (r: bool)
        ensures
            r == (y < self@.grid.len() ==> x + len <= self@.grid[y as int].len()),
    {
        if y < self.buf.len() {
            let n = self.buf[y].len();
            x <= n && len <= n - x
        } else {
            true
        }
    }

    /// The number of rows.
    pub fn row_count(&self) -> (r: usize)
        ensures
            r == self@.grid.len(),
    {
        self.buf.len()
    }

    /// The cursor position.
    pub fn get_cursor_pos(&self) -> (r: U16Vec2)
        ensures
            r == self@.cursor_pos,
    {
        self.cursor_pos
    }

    /// The cursor shape; `None` when hidden.
    pub fn get_cursor_style(&self) -> (r: Option<CursorStyle>)
        ensures
            r == self@.cursor_style,
    {
        self.cursor_style
    }

    /// The colors laid over the grid.
    pub fn get_colors(&self) -> (r: &Vec<ColorSpan>)
        ensures
            r@ == self@.colors,
    {
        &self.colors
    }

    /// Draws the rows of `child` from row `pos.y` on, each from column `pos.x`; rows
    /// beyond the screen are left out. The cursor and its shape become the child's.
    pub fn render_child(&mut self, child: UIRenderer, pos: U16Vec2)
        requires
            child_fits(old(self)@.grid, child@.grid, pos.x as int, pos.y as int),
            pos.y + child@.grid.len() <= usize::MAX,
        ensures
            final(self)@.grid == paste_grid(old(self)@.grid, child@.grid, pos.x as int, pos.y as int),
            final(self)@.cursor_pos == child@.cursor_pos,
            final(self)@.cursor_style == child@.cursor_style,
            final(self)@.size == old(self)@.size,
            final(self)@.colors == old(self)@.colors,
    {
        let ghost cg = child@.grid;
        let mut y: usize = 0;
        while y < child.buf.len()
            invariant
                0 <= y <= child.buf@.len(),
                cg == child@.grid,
                pos.y + cg.len() <= usize::MAX,
                self@.size == old(self)@.size,
                self@.colors == old(self)@.colors,
                self@.cursor_pos == old(self)@.cursor_pos,
                self@.cursor_style == old(self)@.cursor_style,
                self@.grid.len() == old(self)@.grid.len(),
                forall|i: int| 0 <= i < self@.grid.len() ==> (#[trigger] self@.grid[i]).len() == old(self)@.grid[i].len(),
                child_fits(old(self)@.grid, cg, pos.x as int, pos.y as int),
                self@.grid == paste_grid(old(self)@.grid, cg.take(y as int), pos.x as int, pos.y as int),
            decreases child.buf@.len() - y,
        {
            let draw_y = pos.y as usize + y;
            let row = &child.buf[y];
            assert(cg.take(y + 1).drop_last() =~= cg.take(y as int));
            assert(cg.take(y + 1).last() == row@);
            assert(text_fits_row(old(self)@.grid, pos.x as int, pos.y + y, cg[y as int]));
            if draw_y < self.buf.len() {
                let mut line = self.buf[draw_y].clone();
                let ghost orig = line@;
                let n = line.len();
                let start = pos.x as usize;
                assert(orig == self@.grid[draw_y as int]);
                assert(orig.len() == old(self)@.grid[draw_y as int].len());
                assert(orig.take(start as int) + row@.take(0) + orig.skip(start as int) =~= orig);
                let mut x: usize = 0;
                while x < row.len()
                    invariant
                        0 <= x <= row@.len(),
                        start + row@.len() <= orig.len(),
                        orig.len() == n,
                        line@ == orig.take(start as int) + row@.take(x as int) + orig.skip(start + x),
                    decreases row@.len() - x,
                {
                    line.set(start + x, row[x]);
                    assert(line@ =~= orig.take(start as int) + row@.take(x + 1) + orig.skip(start + x + 1));
                    x = x + 1;
                }
                assert(row@.take(row@.len() as int) =~= row@);
                self.buf.set(draw_y, line);
                assert(self@.grid =~= write_text(paste_grid(old(self)@.grid, cg.take(y as int), pos.x as int, pos.y as int), pos.x as int, pos.y + y, row@));
            }
            y = y + 1;
        }
        assert(cg.take(child.buf@.len() as int) =~= cg);
        self.cursor_pos = child.cursor_pos;
        self.cursor_style = child.cursor_style;
    }
}

/// Whether two grids have as many rows, each as long.
pub open spec fn same_shape(a: Seq<Seq<char>>, b: Seq<Seq<char>>) -> bool {
    &&& a.len() == b.len()
    &&& forall|i: int| 0 <= i < a.len() ==> (#[trigger] a[i]).len() == b[i].len()
}

/// Writing text that fits keeps the shape of the grid.
pub proof fn lemma_write_shape(g: Seq<Seq<char>>, x: int, y: int, t: Seq<char>)
    requires
        0 <= x,
        text_fits_row(g, x, y, t),
    ensures
        same_shape(write_text(g, x, y, t), g),
{
    if 0 <= y < g.len() {
        let w = write_text(g, x, y, t);
        assert forall|i: int| 0 <= i < w.len() implies (#[trigger] w[i]).len() == g[i].len() by {
            if i == y {
                assert(w[i] =~= g[y].take(x) + t + g[y].skip(x + t.len()));
            }
        }
    }
}

/// Whether text fits depends only on the shape of the grid.
pub proof fn lemma_fits_same_shape(a: Seq<Seq<char>>, b: Seq<Seq<char>>, x: int, y: int, t: Seq<char>)
    requires
        same_shape(a, b),
    ensures
        text_fits_row(a, x, y, t) == text_fits_row(b, x, y, t),
{
    if 0 <= y < a.len() {
        assert(a[y].len() == b[y].len());
    }
}

/// Writing `a` and then `b` right after it is writing `a + b`.
pub proof fn lemma_write_concat(g: Seq<Seq<char>>, x: int, y: int, a: Seq<char>, b: Seq<char>)
    requires
        0 <= x,
        text_fits_row(g, x, y, a + b),
    ensures
        write_text(write_text(g, x, y, a), x + a.len(), y, b) == write_text(g, x, y, a + b),
{
    if 0 <= y < g.len() {
        let r = g[y];
        let r1 = r.take(x) + a + r.skip(x + a.len());
        assert(write_text(g, x, y, a)[y] == r1);
        assert(r1.take(x + a.len()) =~= r.take(x) + a);
        assert(r1.skip(x + a.len() + b.len()) =~= r.skip(x + a.len() + b.len()));
        assert(r1.take(x + a.len()) + b + r1.skip(x + a.len() + b.len()) =~= r.take(x) + (a + b) + r.skip(x + (a + b).len()));
        assert(write_text(write_text(g, x, y, a), x + a.len(), y, b) =~= write_text(g, x, y, a + b));
    }
}

} // verus!
