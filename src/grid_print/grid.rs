//! The grid: cells, labels, colors and display toggles.
use vstd::prelude::*;

use super::layout::{max_len, GridModel};
use super::styled::{with_default_color, ColoredChar, ColoredString};

verus! {

/// The views of a sequence of styled texts.
pub open spec fn texts(v: Seq<ColoredString>) -> Seq<Seq<ColoredChar>> {
    v.map_values(|s: ColoredString| s@)
}

/// Each text of `s` with `default` filled in where a character has no color.
pub open spec fn texts_with_default(
    s: Seq<Seq<ColoredChar>>,
    default: Option<termcolor::Color>,
) -> Seq<Seq<ColoredChar>> {
    s.map_values(|t: Seq<ColoredChar>| with_default_color(t, default))
}

/// A table of styled cells, drawn with box borders and optional labels.
pub struct Grid {
    x_labels: Vec<ColoredString>,
    y_labels: Vec<ColoredString>,
    static_column_width: bool,
    draw_x_labels: bool,
    draw_y_labels: bool,
    grid: Vec<Vec<ColoredString>>,
    line_color: Option<termcolor::Color>,
    x_label_color: Option<termcolor::Color>,
    y_label_color: Option<termcolor::Color>,
    cell_color: Option<termcolor::Color>,
}

impl View for Grid {
    type V = GridModel;

    closed spec fn view(&self) -> GridModel {
        GridModel {
            x_labels: texts(self.x_labels@),
            y_labels: texts(self.y_labels@),
            static_column_width: self.static_column_width,
            draw_x_labels: self.draw_x_labels,
            draw_y_labels: self.draw_y_labels,
            columns: self.grid@.map_values(|col: Vec<ColoredString>| texts(col@)),
            line_color: self.line_color,
            x_label_color: self.x_label_color,
            y_label_color: self.y_label_color,
            cell_color: self.cell_color,
        }
    }
}

/// Fills `default` into every uncolored character of every text in `v`.
fn apply_default_to_all(v: &mut Vec<ColoredString>, default: Option<termcolor::Color>)
    ensures
        texts(final(v)@) == texts_with_default(texts(old(v)@), default),
{
    let ghost start = texts(v@);
    let n = v.len();
    for i in 0..n
        invariant
            n == v@.len(),
            start.len() == n,
            forall|k: int| 0 <= k < i ==> #[trigger] v@[k]@ == with_default_color(start[k], default),
            forall|k: int| i <= k < n ==> #[trigger] v@[k]@ == start[k],
    {
        v[i].apply_default_color(default);
    }
    assert(texts(v@) =~= texts_with_default(start, default));
}

impl Grid {
    /// An empty grid: no cells or labels, both label kinds drawn, each
    /// column sized to its own content, no colors.
    pub fn new() -> (r: Self)
        ensures
            r@.x_labels.len() == 0,
            r@.y_labels.len() == 0,
            r@.columns.len() == 0,
            !r@.static_column_width,
            r@.draw_x_labels,
            r@.draw_y_labels,
            r@.line_color is None,
            r@.x_label_color is None,
            r@.y_label_color is None,
            r@.cell_color is None,
    {
        let r = Grid {
            x_labels: Vec::new(),
            y_labels: Vec::new(),
            static_column_width: false,
            draw_x_labels: true,
            draw_y_labels: true,
            grid: Vec::new(),
            line_color: None,
            x_label_color: None,
            y_label_color: None,
            cell_color: None,
        };
        assert(r@.columns =~= Seq::empty());
        r
    }

    /// Sets the color of borders and dividers.
    pub fn set_line_color(self, color: termcolor::Color) -> (r: Self)
        ensures
            r@ == (GridModel { line_color: Some(color), ..self@ }),
    {
        let mut g = self;
        g.line_color = Some(color);
        g
    }

    /// Sets the color that column labels attached afterwards get where
    /// they have none.
    pub fn set_x_label_color(self, color: termcolor::Color) -> (r: Self)
        ensures
            r@ == (GridModel { x_label_color: Some(color), ..self@ }),
    {
        let mut g = self;
        g.x_label_color = Some(color);
        g
    }

    /// Sets the color that row labels attached afterwards get where they
    /// have none.
    pub fn set_y_label_color(self, color: termcolor::Color) -> (r: Self)
        ensures
            r@ == (GridModel { y_label_color: Some(color), ..self@ }),
    {
        let mut g = self;
        g.y_label_color = Some(color);
        g
    }

    /// Sets the color that cells attached afterwards get where they have
    /// none.
    pub fn set_cell_color(self, color: termcolor::Color) -> (r: Self)
        ensures
            r@ == (GridModel { cell_color: Some(color), ..self@ }),
    {
        let mut g = self;
        g.cell_color = Some(color);
        g
    }

    /// Chooses between one shared column width (the widest column's) and
    /// a width per column.
    pub fn set_static_column_width(self, static_column_width: bool) -> (r: Self)
        ensures
            r@ == (GridModel { static_column_width, ..self@ }),
    {
        let mut g = self;
        g.static_column_width = static_column_width;
        g
    }

    /// Turns the column-label row on or off.
    pub fn set_draw_x_labels(self, draw_x_labels: bool) -> (r: Self)
        ensures
            r@ == (GridModel { draw_x_labels, ..self@ }),
    {
        let mut g = self;
        g.draw_x_labels = draw_x_labels;
        g
    }

    /// Turns the row-label gutter on or off.
    pub fn set_draw_y_labels(self, draw_y_labels: bool) -> (r: Self)
        ensures
            r@ == (GridModel { draw_y_labels, ..self@ }),
    {
        let mut g = self;
        g.draw_y_labels = draw_y_labels;
        g
    }

    /// Attaches the column labels, filling in the column-label color set
    /// so far where a character has none.
    pub fn set_x_labels(self, labels: Vec<ColoredString>) -> (r: Self)
        ensures
            r@ == (GridModel {
                x_labels: texts_with_default(texts(labels@), self@.x_label_color),
                ..self@
            }),
    {
        let mut g = self;
        let mut labels = labels;
        apply_default_to_all(&mut labels, g.x_label_color);
        g.x_labels = labels;
        g
    }

    /// Attaches the row labels, filling in the row-label color set so far
    /// where a character has none.
    pub fn set_y_labels(self, labels: Vec<ColoredString>) -> (r: Self)
        ensures
            r@ == (GridModel {
                y_labels: texts_with_default(texts(labels@), self@.y_label_color),
                ..self@
            }),
    {
        let mut g = self;
        let mut labels = labels;
        apply_default_to_all(&mut labels, g.y_label_color);
        g.y_labels = labels;
        g
    }

    /// Attaches the cells, column by column, filling in the cell color set
    /// so far where a character has none.
    pub fn set_grid(self, grid: Vec<Vec<ColoredString>>) -> (r: Self)
        ensures
            r@ == (GridModel {
                columns: grid@.map_values(
                    |col: Vec<ColoredString>| texts_with_default(texts(col@), self@.cell_color),
                ),
                ..self@
            }),
    {
        let mut g = self;
        let mut grid = grid;
        let ghost start = grid@;
        let n = grid.len();
        for i in 0..n
            invariant
                n == grid@.len(),
                start.len() == n,
                forall|k: int| 0 <= k < i ==> #[trigger] texts(grid@[k]@) == texts_with_default(texts(start[k]@), g.cell_color),
                forall|k: int| i <= k < n ==> #[trigger] grid@[k] == start[k],
        {
            apply_default_to_all(&mut grid[i], g.cell_color);
        }
        g.grid = grid;
        assert(g@.columns =~= start.map_values(
            |col: Vec<ColoredString>| texts_with_default(texts(col@), self@.cell_color),
        ));
        g
    }

    /// Whether the grid can be drawn (see `GridModel::renderable`).
    pub fn is_renderable(&self) -> (r: bool)
        ensures
            r == self@.renderable(),
    {
        if self.grid.len() == 0 || self.grid[0].len() == 0 {
            return false;
        }
        let rows = self.grid[0].len();
        let n = self.grid.len();
        for i in 0..n
            invariant
                n == self@.columns.len(),
                rows == self@.columns[0].len(),
                forall|k: int| 0 <= k < i ==> #[trigger] self@.columns[k].len() == rows,
        {
            if self.grid[i].len() != rows {
                assert(self@.columns[i as int].len() != rows);
                return false;
            }
        }
        (!self.draw_x_labels || self.x_labels.len() >= n) && (!self.draw_y_labels
            || self.y_labels.len() >= rows)
    }

    /// The width each column needs on its own: its widest cell, or its
    /// label if that is drawn and wider.
    pub fn column_widths(&self) -> (r: Vec<usize>)
        ensures
            r@.len() == self@.columns.len(),
            forall|i: int| 0 <= i < r@.len() ==> #[trigger] r@[i] == self@.column_width(i),
    {
        let mut widths: Vec<usize> = Vec::new();
        let n = self.grid.len();
        for i in 0..n
            invariant
                n == self@.columns.len(),
                widths@.len() == i,
                forall|k: int| 0 <= k < i ==> #[trigger] widths@[k] == self@.column_width(k),
        {
            let ghost col = self@.columns[i as int];
            let mut w: usize = 0;
            let m = self.grid[i].len();
            for j in 0..m
                invariant
                    i < n,
                    n == self@.columns.len(),
                    col == self@.columns[i as int],
                    m == col.len(),
                    w == max_len(col.take(j as int)),
            {
                assert(col.take(j + 1).drop_last() =~= col.take(j as int));
                let len = self.grid[i][j].len();
                if len > w {
                    w = len;
                }
            }
            assert(col.take(m as int) =~= col);
            if self.draw_x_labels && self.x_labels.len() > i {
                let len = self.x_labels[i].len();
                if len > w {
                    w = len;
                }
            }
            widths.push(w);
        }
        widths
    }

    /// The widest column's width.
    pub fn largest_width(&self) -> (r: usize)
        ensures
            r == self@.largest_width(),
    {
        let widths = self.column_widths();
        let mut largest: usize = 0;
        let n = widths.len();
        for i in 0..n
            invariant
                n == widths@.len(),
                n == self@.columns.len(),
                forall|k: int| 0 <= k < n ==> #[trigger] widths@[k] == self@.column_width(k),
                largest == self@.largest_width_upto(i as int),
        {
            if widths[i] > largest {
                largest = widths[i];
            }
        }
        largest
    }

    /// The width of the row-label gutter: the longest row label.
    pub fn label_width(&self) -> (r: usize)
        ensures
            r == self@.label_width(),
    {
        let ghost labels = self@.y_labels;
        let mut w: usize = 0;
        let n = self.y_labels.len();
        for j in 0..n
            invariant
                labels == self@.y_labels,
                n == labels.len(),
                w == max_len(labels.take(j as int)),
        {
            assert(labels.take(j + 1).drop_last() =~= labels.take(j as int));
            let len = self.y_labels[j].len();
            if len > w {
                w = len;
            }
        }
        assert(labels.take(n as int) =~= labels);
        w
    }

    /// The width each column is drawn at: the widest column's width for
    /// every column when widths are shared, else its own.
    pub fn effective_widths(&self) -> (r: Vec<usize>)
        ensures
            r@.len() == self@.columns.len(),
            forall|i: int| 0 <= i < r@.len() ==> #[trigger] r@[i] == self@.effective_width(i),
    {
        let widths = self.column_widths();
        if !self.static_column_width {
            return widths;
        }
        let largest = self.largest_width();
        let mut r: Vec<usize> = Vec::new();
        let n = widths.len();
        for i in 0..n
            invariant
                n == self@.columns.len(),
                r@.len() == i,
                self@.static_column_width,
                forall|k: int| 0 <= k < i ==> #[trigger] r@[k] == largest,
                largest == self@.largest_width(),
        {
            r.push(largest);
        }
        r
    }

    /// The number of columns.
    pub fn num_columns(&self) -> (r: usize)
        ensures
            r == self@.num_columns(),
    {
        self.grid.len()
    }

    /// The number of rows, read from the first column (0 without columns).
    pub fn num_rows(&self) -> (r: usize)
        ensures
            r == self@.num_rows(),
    {
        if self.grid.len() == 0 {
            0
        } else {
            self.grid[0].len()
        }
    }

    /// The cell of column `x`, row `y`.
    pub fn cell(&self, x: usize, y: usize) -> (r: &ColoredString)
        requires
            x < self@.columns.len(),
            y < self@.columns[x as int].len(),
        ensures
            r@ == self@.columns[x as int][y as int],
    {
        &self.grid[x][y]
    }

    /// The label of column `i`.
    pub fn x_label(&self, i: usize) -> (r: &ColoredString)
        requires
            i < self@.x_labels.len(),
        ensures
            r@ == self@.x_labels[i as int],
    {
        &self.x_labels[i]
    }

    /// The label of row `i`.
    pub fn y_label(&self, i: usize) -> (r: &ColoredString)
        requires
            i < self@.y_labels.len(),
        ensures
            r@ == self@.y_labels[i as int],
    {
        &self.y_labels[i]
    }

    /// Whether the column-label row is drawn.
    pub fn draw_x_labels(&self) -> (r: bool)
        ensures
            r == self@.draw_x_labels,
    {
        self.draw_x_labels
    }

    /// Whether the row-label gutter is drawn.
    pub fn draw_y_labels(&self) -> (r: bool)
        ensures
            r == self@.draw_y_labels,
    {
        self.draw_y_labels
    }

    /// The color of borders and dividers.
    pub fn line_color(&self) -> (r: Option<termcolor::Color>)
        ensures
            r == self@.line_color,
    {
        self.line_color
    }
}

} // verus!
