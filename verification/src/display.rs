//! The display projector: a pure read of a buffer's text and viewport into
//! a rectangular grid of character cells, framed by a one-cell rounded
//! border. Rows past the document end render blank rather than being
//! omitted, so the border stays rectangular; lines longer than the
//! interior are truncated, not wrapped.

use vstd::prelude::*;

use crate::buffer::Buffer;
use crate::lines::{line_at, line_count};

verus! {

pub const TOP_LEFT: char = '╭';

pub const TOP_RIGHT: char = '╮';

pub const BOTTOM_LEFT: char = '╰';

pub const BOTTOM_RIGHT: char = '╯';

pub const HORIZONTAL: char = '─';

pub const VERTICAL: char = '│';

/// What one cell of the grid shows for a document `text` viewed from line
/// `view`: the border on the four edges, and inside it, row `y` of the
/// grid carries document line `view + y - 1`, truncated to the interior
/// width, blank past the line's end and past the document's end.
pub open spec fn rendered_cell(
    text: Seq<char>,
    view: int,
    width: int,
    height: int,
    x: int,
    y: int,
) -> char {
    if y == 0 {
        if x == 0 {
            TOP_LEFT
        } else if x == width - 1 {
            TOP_RIGHT
        } else {
            HORIZONTAL
        }
    } else if y == height - 1 {
        if x == 0 {
            BOTTOM_LEFT
        } else if x == width - 1 {
            BOTTOM_RIGHT
        } else {
            HORIZONTAL
        }
    } else if x == 0 || x == width - 1 {
        VERTICAL
    } else {
        let row = view + y - 1;
        if row < line_count(text) && x - 1 < line_at(text, row).len() {
            line_at(text, row)[x - 1]
        } else {
            ' '
        }
    }
}

/// A rectangular grid of character cells, the rendering target an external
/// compositor hands to this core and blits to the screen afterward.
pub struct Grid {
    pub width: usize,
    pub height: usize,
    pub rows: Vec<Vec<char>>,
}

impl Grid {
    /// The grid really is `width` by `height`.
    pub open spec fn wf(&self) -> bool {
        &&& self.rows@.len() == self.height
        &&& forall|y: int| 0 <= y < self.height ==> self.rows@[y]@.len() == self.width
    }

    /// A grid of the given size, all cells blank.
    pub fn new(width: usize, height: usize) -> (g: Grid)
        ensures
            g.wf(),
            g.width == width,
            g.height == height,
    {
        let mut rows: Vec<Vec<char>> = Vec::new();
        while rows.len() < height
            invariant
                rows@.len() <= height,
                forall|y: int| 0 <= y < rows@.len() ==> rows@[y]@.len() == width,
            decreases height - rows@.len(),
        {
            let mut r: Vec<char> = Vec::new();
            while r.len() < width
                invariant
                    r@.len() <= width,
                decreases width - r@.len(),
            {
                r.push(' ');
            }
            rows.push(r);
        }
        Grid { width, height, rows }
    }

    /// Checks at run time that the grid has its stated shape, for callers
    /// outside verified code that assembled one by hand.
    pub fn is_well_formed(&self) -> (b: bool)
        ensures
            b <==> self.wf(),
    {
        if self.rows.len() != self.height {
            return false;
        }
        let mut y: usize = 0;
        while y < self.rows.len()
            invariant
                y <= self.rows@.len(),
                self.rows@.len() == self.height,
                forall|k: int| 0 <= k < y ==> self.rows@[k]@.len() == self.width,
            decreases self.rows@.len() - y,
        {
            if self.rows[y].len() != self.width {
                return false;
            }
            y += 1;
        }
        true
    }
}

/// Builds grid row `y` for a document whose visible line, when `y` is an
/// interior row, has already been fetched into `content` (`None` when the
/// row lies past the document end).
fn project_row(
    content: &Option<Vec<char>>,
    y: usize,
    width: usize,
    height: usize,
    Ghost(text): Ghost<Seq<char>>,
    Ghost(view): Ghost<int>,
) -> (row: Vec<char>)
    requires
        y < height,
        1 <= y < height - 1 ==> (match *content {
            Some(v) => view + y - 1 < line_count(text) && v@ == line_at(text, view + y - 1),
            None => view + y - 1 >= line_count(text),
        }),
    ensures
        row@.len() == width,
        forall|x: int|
            0 <= x < width ==> row@[x] == rendered_cell(
                text,
                view,
                width as int,
                height as int,
                x,
                y as int,
            ),
{
    let mut row: Vec<char> = Vec::new();
    let mut x: usize = 0;
    while x < width
        invariant
            x <= width,
            row@.len() == x,
            y < height,
            1 <= y < height - 1 ==> (match *content {
                Some(v) => view + y - 1 < line_count(text) && v@ == line_at(text, view + y - 1),
                None => view + y - 1 >= line_count(text),
            }),
            forall|k: int|
                0 <= k < x ==> row@[k] == rendered_cell(
                    text,
                    view,
                    width as int,
                    height as int,
                    k,
                    y as int,
                ),
        decreases width - x,
    {
        let c: char;
        if y == 0 {
            if x == 0 {
                c = TOP_LEFT;
            } else if x == width - 1 {
                c = TOP_RIGHT;
            } else {
                c = HORIZONTAL;
            }
        } else if y == height - 1 {
            if x == 0 {
                c = BOTTOM_LEFT;
            } else if x == width - 1 {
                c = BOTTOM_RIGHT;
            } else {
                c = HORIZONTAL;
            }
        } else if x == 0 || x == width - 1 {
            c = VERTICAL;
        } else {
            c = match content {
                Some(v) => {
                    if x - 1 < v.len() {
                        v[x - 1]
                    } else {
                        ' '
                    }
                },
                None => ' ',
            };
        }
        row.push(c);
        x += 1;
    }
    row
}

impl Buffer {
    /// Projects this buffer onto the grid in place: afterward every cell
    /// shows exactly what `rendered_cell` states for the buffer's text and
    /// viewport and the grid's dimensions. A pure read of the buffer; the
    /// grid's dimensions are kept.
    pub fn render(&self, grid: &mut Grid)
        requires
            old(grid).wf(),
        ensures
            final(grid).wf(),
            final(grid).width == old(grid).width,
            final(grid).height == old(grid).height,
            forall|x: int, y: int|
                0 <= x < final(grid).width && 0 <= y < final(grid).height
                    ==> final(grid).rows@[y]@[x] == rendered_cell(
                    self.data@,
                    self.view as int,
                    final(grid).width as int,
                    final(grid).height as int,
                    x,
                    y,
                ),
    {
        let width = grid.width;
        let height = grid.height;
        let lc = self.data.line_count();
        let mut y: usize = 0;
        while y < height
            invariant
                y <= height,
                grid.width == width,
                grid.height == height,
                grid.rows@.len() == height,
                lc == line_count(self.data@),
                forall|yy: int| 0 <= yy < height ==> grid.rows@[yy]@.len() == width,
                forall|x: int, yy: int|
                    0 <= x < width && 0 <= yy < y ==> grid.rows@[yy]@[x] == rendered_cell(
                        self.data@,
                        self.view as int,
                        width as int,
                        height as int,
                        x,
                        yy,
                    ),
            decreases height - y,
        {
            let content: Option<Vec<char>> = if y == 0 || y == height - 1 {
                None
            } else {
                match self.view.checked_add(y - 1) {
                    Some(doc_row) => {
                        if doc_row < lc {
                            Some(self.data.line(doc_row).unwrap())
                        } else {
                            None
                        }
                    },
                    None => None,
                }
            };
            let row = project_row(
                &content,
                y,
                width,
                height,
                Ghost(self.data@),
                Ghost(self.view as int),
            );
            grid.rows[y] = row;
            y += 1;
        }
    }
}

/// Rows past the document end are blank, not omitted: when the viewport
/// runs past the last line, every interior cell of such a row renders as
/// a space.
pub proof fn lemma_render_blank_past_end(
    text: Seq<char>,
    view: int,
    width: int,
    height: int,
    x: int,
    y: int,
)
    requires
        1 <= y < height - 1,
        1 <= x < width - 1,
        view + y - 1 >= line_count(text),
    ensures
        rendered_cell(text, view, width, height, x, y) == ' ',
{
}

/// The border is rectangular whatever the text and the viewport: every
/// edge cell of the grid renders one of the border glyphs, even where the
/// document has long since ended.
pub proof fn lemma_render_border(
    text: Seq<char>,
    view: int,
    width: int,
    height: int,
    x: int,
    y: int,
)
    requires
        0 <= x < width,
        0 <= y < height,
        x == 0 || x == width - 1 || y == 0 || y == height - 1,
    ensures
        rendered_cell(text, view, width, height, x, y) == TOP_LEFT || rendered_cell(
            text,
            view,
            width,
            height,
            x,
            y,
        ) == TOP_RIGHT || rendered_cell(text, view, width, height, x, y) == BOTTOM_LEFT
            || rendered_cell(text, view, width, height, x, y) == BOTTOM_RIGHT || rendered_cell(
            text,
            view,
            width,
            height,
            x,
            y,
        ) == HORIZONTAL || rendered_cell(text, view, width, height, x, y) == VERTICAL,
{
}

} // verus!
