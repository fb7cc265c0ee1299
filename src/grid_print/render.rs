//! Drawing a grid: the text it turns into, and the code that builds it.
use vstd::prelude::*;

use super::grid::Grid;
use super::layout::{centering_pads, lemma_largest_width_upto, lemma_max_len, GridModel};
use super::styled::{repeated, styled, ColoredChar, ColoredString};

verus! {

/// A border glyph in the grid's line color.
pub open spec fn line(c: char, m: GridModel) -> ColoredChar {
    styled(c, m.line_color)
}

/// An uncolored space.
pub open spec fn space() -> ColoredChar {
    styled(' ', None)
}

/// An uncolored line break.
pub open spec fn newline() -> ColoredChar {
    styled('\n', None)
}

/// `text` centered in a field of `width + 2` columns: half the slack as
/// spaces on the left, the rest on the right.
pub open spec fn centered(text: Seq<ColoredChar>, width: nat) -> Seq<ColoredChar> {
    let slack = (width + 2 - text.len()) as nat;
    repeated(space(), slack / 2) + text + repeated(space(), (slack - slack / 2) as nat)
}

/// The horizontal runs of the first `n` columns of a border line, each
/// `fill` repeated over the column's field and closed by `mid`, or by `end`
/// after the last column.
pub open spec fn border_segments(m: GridModel, n: int, fill: char, mid: char, end: char) -> Seq<
    ColoredChar,
>
    decreases n,
{
    if n <= 0 {
        seq![]
    } else {
        border_segments(m, n - 1, fill, mid, end) + repeated(
            line(fill, m),
            m.effective_width(n - 1) + 2,
        ) + seq![line(if n - 1 == m.num_columns() - 1 { end } else { mid }, m)]
    }
}

/// A border line: the gutter's light rule ended by `gutter` when row labels
/// are drawn, else `edge` alone, then the column segments.
pub open spec fn border_line(
    m: GridModel,
    gutter: char,
    edge: char,
    fill: char,
    mid: char,
    end: char,
) -> Seq<ColoredChar> {
    (if m.draw_y_labels {
        repeated(line('─', m), m.label_width() + 1) + seq![line(gutter, m)]
    } else {
        seq![line(edge, m)]
    }) + border_segments(m, m.num_columns() as int, fill, mid, end)
}

/// The labels of the first `n` columns, each centered in its column's
/// field and followed by a light divider.
pub open spec fn x_label_cells(m: GridModel, n: int) -> Seq<ColoredChar>
    decreases n,
{
    if n <= 0 {
        seq![]
    } else {
        x_label_cells(m, n - 1) + centered(m.x_labels[n - 1], m.effective_width(n - 1)) + seq![
            line('│', m),
        ]
    }
}

/// The column-label row: a blank gutter when row labels are drawn, then
/// each label in its field between light dividers.
pub open spec fn x_label_row(m: GridModel) -> Seq<ColoredChar> {
    (if m.draw_y_labels {
        repeated(space(), m.label_width() + 1)
    } else {
        seq![]
    }) + seq![line('│', m)] + x_label_cells(m, m.num_columns() as int) + seq![newline()]
}

/// Everything above the first row: the label row and its heavy rule when
/// column labels are drawn, else the top border alone.
pub open spec fn top_border(m: GridModel) -> Seq<ColoredChar> {
    if m.draw_x_labels {
        x_label_row(m) + border_line(m, '╆', '┢', '━', '┿', '┪') + seq![newline()]
    } else {
        border_line(m, '┲', '┏', '━', '┯', '┓') + seq![newline()]
    }
}

/// The row label of row `y`, right-aligned in the gutter and followed by
/// a space, when row labels are drawn.
pub open spec fn row_gutter(m: GridModel, y: int) -> Seq<ColoredChar> {
    if m.draw_y_labels {
        repeated(space(), (m.label_width() - m.y_labels[y].len()) as nat) + m.y_labels[y]
            + seq![space()]
    } else {
        seq![]
    }
}

/// The cells of row `y` in the first `n` columns, each centered in its
/// column's field, with a light divider between two columns.
pub open spec fn row_cells(m: GridModel, y: int, n: int) -> Seq<ColoredChar>
    decreases n,
{
    if n <= 0 {
        seq![]
    } else {
        row_cells(m, y, n - 1) + centered(m.columns[n - 1][y], m.effective_width(n - 1)) + (if n
            - 1 < m.num_columns() - 1 {
            seq![line('│', m)]
        } else {
            seq![]
        })
    }
}

/// Row `y` between heavy outer edges, then the divider below it unless it
/// is the last row.
pub open spec fn row_text(m: GridModel, y: int) -> Seq<ColoredChar> {
    row_gutter(m, y) + seq![line('┃', m)] + row_cells(m, y, m.num_columns() as int) + seq![
        line('┃', m),
        newline(),
    ] + (if y < m.num_rows() - 1 {
        row_divider(m)
    } else {
        seq![]
    })
}

/// The first `n` rows.
pub open spec fn rows_upto(m: GridModel, n: int) -> Seq<ColoredChar>
    decreases n,
{
    if n <= 0 {
        seq![]
    } else {
        rows_upto(m, n - 1) + row_text(m, n - 1)
    }
}

/// The whole drawing of a grid: the top border, the rows with their
/// dividers, and the bottom border.
pub open spec fn rendered(m: GridModel) -> Seq<ColoredChar> {
    top_border(m) + rows_upto(m, m.num_rows() as int) + bottom_border(m)
}

/// The bottom border.
pub open spec fn bottom_border(m: GridModel) -> Seq<ColoredChar> {
    border_line(m, '┺', '┗', '━', '┷', '┛')
}

/// The divider drawn between two rows.
pub open spec fn row_divider(m: GridModel) -> Seq<ColoredChar> {
    border_line(m, '╂', '┠', '─', '┼', '┨') + seq![newline()]
}

/// Every text of `column` fits in `width`.
pub open spec fn all_fit(column: Seq<Seq<ColoredChar>>, width: nat) -> bool {
    forall|j: int| 0 <= j < column.len() ==> #[trigger] column[j].len() <= width
}

/// Every cell of column `i`, and its label when drawn, fits its width.
pub proof fn lemma_fits(m: GridModel, i: int)
    requires
        0 <= i < m.columns.len(),
    ensures
        all_fit(m.columns[i], m.effective_width(i)),
        m.has_x_label(i) ==> m.x_labels[i].len() <= m.effective_width(i),
        m.column_width(i) <= m.largest_width(),
{
    lemma_max_len(m.columns[i]);
    lemma_largest_width_upto(m, m.columns.len() as int);
}

/// Appends `text` centered in a field of `width + 2` columns.
fn push_centered(out: &mut ColoredString, text: &ColoredString, width: usize)
    requires
        text@.len() <= width,
    ensures
        final(out)@ == old(out)@ + centered(text@, width as nat),
{
    let pads = centering_pads(text.len(), width);
    out.push_char(' ');
    out.push_char_rep(' ', pads.0);
    out.push_colored_string(text);
    out.push_char_rep(' ', pads.1);
    out.push_char(' ');
    let ghost slack = (width + 2 - text@.len()) as nat;
    assert(slack / 2 == pads.0 + 1);
    assert(out@ =~= old(out)@ + centered(text@, width as nat));
}

/// `widths` holds the width each column of `m` is drawn at.
pub open spec fn drawn_widths(m: GridModel, widths: Seq<usize>) -> bool {
    &&& widths.len() == m.columns.len()
    &&& forall|i: int| 0 <= i < widths.len() ==> #[trigger] widths[i] == m.effective_width(i)
}

/// Appends a border line and the line break after it when `newline_after`.
fn push_border_line(
    out: &mut ColoredString,
    g: &Grid,
    widths: &Vec<usize>,
    label_width: usize,
    glyphs: (char, char, char, char, char),
)
    requires
        drawn_widths(g@, widths@),
        label_width == g@.label_width(),
    ensures
        final(out)@ == old(out)@ + border_line(g@, glyphs.0, glyphs.1, glyphs.2, glyphs.3, glyphs.4),
{
    let ghost m = g@;
    let (gutter, edge, fill, mid, end) = glyphs;
    let color = g.line_color();
    if g.draw_y_labels() {
        out.push_char_rep_c('─', color, label_width);
        out.push_char_c('─', color);
        out.push_char_c(gutter, color);
        assert(repeated(line('─', m), label_width as nat).push(line('─', m)) =~= repeated(line('─', m), (label_width + 1) as nat));
    } else {
        out.push_char_c(edge, color);
    }
    let ghost start = out@;
    let n = g.num_columns();
    for i in 0..n
        invariant
            m == g@,
            n == m.num_columns(),
            drawn_widths(m, widths@),
            color == m.line_color,
            out@ == start + border_segments(m, i as int, fill, mid, end),
    {
        let w = widths[i];
        out.push_char_c(fill, color);
        out.push_char_c(fill, color);
        out.push_char_rep_c(fill, color, w);
        if i == n - 1 {
            out.push_char_c(end, color);
        } else {
            out.push_char_c(mid, color);
        }
        assert(seq![line(fill, m), line(fill, m)] + repeated(line(fill, m), w as nat) =~= repeated(line(fill, m), (w + 2) as nat));
        assert(out@ =~= start + border_segments(m, i + 1, fill, mid, end));
    }
}

/// Appends the column-label row.
fn push_x_label_row(out: &mut ColoredString, g: &Grid, widths: &Vec<usize>, label_width: usize)
    requires
        g@.renderable(),
        g@.draw_x_labels,
        drawn_widths(g@, widths@),
        label_width == g@.label_width(),
    ensures
        final(out)@ == old(out)@ + x_label_row(g@),
{
    let ghost m = g@;
    let ghost start = out@;
    let color = g.line_color();
    if g.draw_y_labels() {
        out.push_char_rep(' ', label_width);
        out.push_char(' ');
        assert(repeated(space(), label_width as nat).push(space()) =~= repeated(space(), (label_width + 1) as nat));
    }
    out.push_char_c('│', color);
    let ghost lead = out@;
    let n = g.num_columns();
    for i in 0..n
        invariant
            m == g@,
            m.renderable(),
            m.draw_x_labels,
            n == m.num_columns(),
            drawn_widths(m, widths@),
            color == m.line_color,
            out@ == lead + x_label_cells(m, i as int),
    {
        proof {
            lemma_fits(m, i as int);
        }
        push_centered(out, g.x_label(i), widths[i]);
        out.push_char_c('│', color);
        assert(out@ =~= lead + x_label_cells(m, i + 1));
    }
    out.push_char('\n');
    assert(out@ =~= start + x_label_row(m));
}

/// Appends row `y`, and the divider below it unless it is the last row.
fn push_row(out: &mut ColoredString, g: &Grid, widths: &Vec<usize>, label_width: usize, y: usize)
    requires
        g@.renderable(),
        y < g@.num_rows(),
        drawn_widths(g@, widths@),
        label_width == g@.label_width(),
    ensures
        final(out)@ == old(out)@ + row_text(g@, y as int),
{
    let ghost m = g@;
    let ghost start = out@;
    let color = g.line_color();
    if g.draw_y_labels() {
        let label = g.y_label(y);
        proof {
            lemma_max_len(m.y_labels);
        }
        out.push_char_rep(' ', label_width - label.len());
        out.push_colored_string(label);
        out.push_char(' ');
    }
    assert(out@ =~= start + row_gutter(m, y as int));
    out.push_char_c('┃', color);
    let ghost lead = out@;
    let n = g.num_columns();
    for x in 0..n
        invariant
            m == g@,
            m.renderable(),
            y < m.num_rows(),
            n == m.num_columns(),
            drawn_widths(m, widths@),
            color == m.line_color,
            out@ == lead + row_cells(m, y as int, x as int),
    {
        proof {
            lemma_fits(m, x as int);
            assert(m.columns[x as int].len() == m.columns[0].len());
        }
        push_centered(out, g.cell(x, y), widths[x]);
        if x < n - 1 {
            out.push_char_c('│', color);
        }
        assert(out@ =~= lead + row_cells(m, y as int, x + 1));
    }
    out.push_char_c('┃', color);
    out.push_char('\n');
    let ghost body = out@;
    if y < g.num_rows() - 1 {
        push_border_line(out, g, widths, label_width, ('╂', '┠', '─', '┼', '┨'));
        out.push_char('\n');
    }
    assert(out@ =~= start + row_text(m, y as int));
}

impl Grid {
    /// Draws the grid as styled text: the top border (under the
    /// column-label row when that is drawn), each row with a divider between
    /// two rows, and the bottom border.
    pub fn render(&self) -> (r: ColoredString)
        requires
            self@.renderable(),
        ensures
            r@ == rendered(self@),
    {
        let ghost m = self@;
        let widths = self.effective_widths();
        let label_width = self.label_width();
        let mut out = ColoredString::new();
        if self.draw_x_labels() {
            push_x_label_row(&mut out, self, &widths, label_width);
            push_border_line(&mut out, self, &widths, label_width, ('╆', '┢', '━', '┿', '┪'));
        } else {
            push_border_line(&mut out, self, &widths, label_width, ('┲', '┏', '━', '┯', '┓'));
        }
        out.push_char('\n');
        assert(out@ =~= top_border(m));
        let rows = self.num_rows();
        for y in 0..rows
            invariant
                m == self@,
                m.renderable(),
                rows == m.num_rows(),
                drawn_widths(m, widths@),
                label_width == m.label_width(),
                out@ == top_border(m) + rows_upto(m, y as int),
        {
            push_row(&mut out, self, &widths, label_width, y);
            assert(out@ =~= top_border(m) + rows_upto(m, y + 1));
        }
        push_border_line(&mut out, self, &widths, label_width, ('┺', '┗', '━', '┷', '┛'));
        assert(out@ =~= rendered(m));
        out
    }
}

/// Drawing is repeatable: two drawings of the same grid are the same
/// characters in the same colors.
pub proof fn lemma_render_repeatable(m: GridModel, first: Seq<ColoredChar>, second: Seq<ColoredChar>)
    requires
        first == rendered(m),
        second == rendered(m),
    ensures
        first == second,
{
}

} // verus!
