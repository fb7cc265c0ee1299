//! Layout metrics: column widths, the label gutter and centering.
use vstd::prelude::*;

use super::styled::ColoredChar;

verus! {

/// The plain-value model of a grid.
pub struct GridModel {
    /// One label per column, drawn above it when `draw_x_labels` is set.
    pub x_labels: Seq<Seq<ColoredChar>>,
    /// One label per row, drawn left of it when `draw_y_labels` is set.
    pub y_labels: Seq<Seq<ColoredChar>>,
    pub static_column_width: bool,
    pub draw_x_labels: bool,
    pub draw_y_labels: bool,
    /// Column-major cells: `columns[x][y]` is the cell of column `x`, row `y`.
    pub columns: Seq<Seq<Seq<ColoredChar>>>,
    pub line_color: Option<termcolor::Color>,
    pub x_label_color: Option<termcolor::Color>,
    pub y_label_color: Option<termcolor::Color>,
    pub cell_color: Option<termcolor::Color>,
}

/// The greater of two naturals.
pub open spec fn max_nat(a: nat, b: nat) -> nat {
    if a >= b {
        a
    } else {
        b
    }
}

/// The length of the longest text in `s`, or 0 when `s` is empty.
pub open spec fn max_len(s: Seq<Seq<ColoredChar>>) -> nat
    decreases s.len(),
{
    if s.len() == 0 {
        0
    } else {
        max_nat(max_len(s.drop_last()), s.last().len())
    }
}

impl GridModel {
    pub open spec fn num_columns(self) -> nat {
        self.columns.len()
    }

    /// The number of rows, read from the first column.
    pub open spec fn num_rows(self) -> nat {
        if self.columns.len() == 0 {
            0
        } else {
            self.columns[0].len()
        }
    }

    /// Whether column `i`'s label takes part in layout.
    pub open spec fn has_x_label(self, i: int) -> bool {
        self.draw_x_labels && 0 <= i < self.x_labels.len()
    }

    /// The width column `i` needs: its widest cell, or its label if that is
    /// wider and drawn.
    pub open spec fn column_width(self, i: int) -> nat {
        let w = max_len(self.columns[i]);
        if self.has_x_label(i) {
            max_nat(w, self.x_labels[i].len())
        } else {
            w
        }
    }

    /// The widest of the first `n` columns.
    pub open spec fn largest_width_upto(self, n: int) -> nat
        decreases n,
    {
        if n <= 0 {
            0
        } else {
            max_nat(self.largest_width_upto(n - 1), self.column_width(n - 1))
        }
    }

    /// The widest column of the grid.
    pub open spec fn largest_width(self) -> nat {
        self.largest_width_upto(self.columns.len() as int)
    }

    /// The width of the row-label gutter: the longest row label.
    pub open spec fn label_width(self) -> nat {
        max_len(self.y_labels)
    }

    /// The width column `i` is drawn at.
    pub open spec fn effective_width(self, i: int) -> nat {
        if self.static_column_width {
            self.largest_width()
        } else {
            self.column_width(i)
        }
    }

    /// A grid that can be drawn: at least one column and one row, every
    /// column as long as the first, and a label for every column and row
    /// whose labels are drawn.
    pub open spec fn renderable(self) -> bool {
        &&& self.columns.len() >= 1
        &&& self.columns[0].len() >= 1
        &&& forall|i: int| 0 <= i < self.columns.len() ==> #[trigger] self.columns[i].len() == self.columns[0].len()
        &&& self.draw_x_labels ==> self.x_labels.len() >= self.columns.len()
        &&& self.draw_y_labels ==> self.y_labels.len() >= self.columns[0].len()
    }
}

/// No text in `s` is longer than `max_len(s)`, and unless `s` is empty one
/// text is exactly that long.
pub proof fn lemma_max_len(s: Seq<Seq<ColoredChar>>)
    ensures
        forall|k: int| 0 <= k < s.len() ==> #[trigger] s[k].len() <= max_len(s),
        s.len() == 0 ==> max_len(s) == 0,
        s.len() > 0 ==> exists|k: int| 0 <= k < s.len() && #[trigger] s[k].len() == max_len(s),
    decreases s.len(),
{
    if s.len() > 0 {
        let t = s.drop_last();
        lemma_max_len(t);
        assert forall|k: int| 0 <= k < s.len() implies #[trigger] s[k].len() <= max_len(s) by {
            if k < t.len() {
                assert(s[k] == t[k]);
            }
        }
        if max_len(s) == s.last().len() {
            assert(s[s.len() - 1].len() == max_len(s));
        } else {
            let k = choose|k: int| 0 <= k < t.len() && #[trigger] t[k].len() == max_len(t);
            assert(s[k] == t[k]);
        }
    }
}

/// The padding that centers text of length `content_len` in a field of
/// `field_width` columns: half the slack on the left, the rest (one more
/// when the slack is odd) on the right.
pub fn centering_pads(content_len: usize, field_width: usize) -> (pads: (usize, usize))
    requires
        content_len <= field_width,
    ensures
        pads.0 == (field_width - content_len) / 2,
        pads.0 + pads.1 == field_width - content_len,
        pads.0 <= pads.1 <= pads.0 + 1,
{
    let diff = field_width - content_len;
    let left = diff / 2;
    let right = if diff % 2 == 0 {
        left
    } else {
        left + 1
    };
    (left, right)
}

/// Centering is exact: the two pads fill the slack, and the right one is
/// the left one or one more.
pub proof fn lemma_centering_exact(content_len: nat, field_width: nat)
    requires
        content_len <= field_width,
    ensures
        ({
            let left = ((field_width - content_len) as nat) / 2;
            let right = (field_width - content_len) - left;
            &&& left + right == field_width - content_len
            &&& left <= right <= left + 1
        }),
{
}

/// Among the first `n` columns (`n > 0`) one is exactly as wide as the
/// widest, and none is wider.
pub proof fn lemma_largest_width_upto(m: GridModel, n: int)
    ensures
        forall|k: int| 0 <= k < n ==> #[trigger] m.column_width(k) <= m.largest_width_upto(n),
        n <= 0 ==> m.largest_width_upto(n) == 0,
        n > 0 ==> exists|k: int| 0 <= k < n && #[trigger] m.column_width(k) == m.largest_width_upto(n),
    decreases n,
{
    if n > 0 {
        lemma_largest_width_upto(m, n - 1);
        if m.largest_width_upto(n) != m.column_width(n - 1) {
            let k = choose|k: int| 0 <= k < n - 1 && #[trigger] m.column_width(k) == m.largest_width_upto(n - 1);
            assert(m.column_width(k) == m.largest_width_upto(n));
        }
    }
}

/// With a width per column, each column is drawn at exactly the width of
/// its widest cell or, when column labels are drawn, its label if that is
/// wider: nothing is cut, and no column is wider than its content needs.
pub proof fn lemma_dynamic_width_fits_content(m: GridModel, i: int)
    requires
        !m.static_column_width,
        0 <= i < m.columns.len(),
    ensures
        m.effective_width(i) == m.column_width(i),
        forall|j: int| 0 <= j < m.columns[i].len() ==> #[trigger] m.columns[i][j].len() <= m.effective_width(i),
        m.has_x_label(i) ==> m.x_labels[i].len() <= m.effective_width(i),
        m.effective_width(i) == 0
            || (exists|j: int| 0 <= j < m.columns[i].len() && #[trigger] m.columns[i][j].len() == m.effective_width(i))
            || (m.has_x_label(i) && m.x_labels[i].len() == m.effective_width(i)),
{
    lemma_max_len(m.columns[i]);
}

/// With one shared width, every column is drawn at the width of the widest
/// column, which no column exceeds and one column reaches.
pub proof fn lemma_static_width_is_largest(m: GridModel, i: int)
    requires
        m.static_column_width,
        0 <= i < m.columns.len(),
    ensures
        m.effective_width(i) == m.largest_width(),
        forall|k: int| 0 <= k < m.columns.len() ==> #[trigger] m.column_width(k) <= m.largest_width(),
        exists|k: int| 0 <= k < m.columns.len() && #[trigger] m.column_width(k) == m.largest_width(),
{
    lemma_largest_width_upto(m, m.columns.len() as int);
}

/// A grid with two columns of different lengths cannot be drawn.
pub proof fn lemma_ragged_grid_not_renderable(m: GridModel, i: int, j: int)
    requires
        0 <= i < m.columns.len(),
        0 <= j < m.columns.len(),
        m.columns[i].len() != m.columns[j].len(),
    ensures
        !m.renderable(),
{
}

} // verus!
