use boxgrid::grid_print::layout::centering_pads;
use boxgrid::grid_print::{Color, ColoredString, Grid};

fn plain(s: &ColoredString) -> String {
    s.as_slice().iter().map(|c| c.ch).collect()
}

fn cells(columns: &[&[&str]]) -> Vec<Vec<ColoredString>> {
    columns
        .iter()
        .map(|col| col.iter().map(|c| ColoredString::from(c)).collect())
        .collect()
}

fn labels(texts: &[&str]) -> Vec<ColoredString> {
    texts.iter().map(|t| ColoredString::from(t)).collect()
}

fn bare(columns: &[&[&str]]) -> Grid {
    Grid::new()
        .set_draw_x_labels(false)
        .set_draw_y_labels(false)
        .set_grid(cells(columns))
}

#[test]
fn two_columns_dynamic_width() {
    let g = bare(&[&["a"], &["bb"]]);
    assert_eq!(g.column_widths(), vec![1, 2]);
    assert_eq!(g.effective_widths(), vec![1, 2]);
    let out = plain(&g.render());
    assert_eq!(out, "┏━━━┯━━━━┓\n┃ a │ bb ┃\n┗━━━┷━━━━┛");
}

#[test]
fn two_columns_static_width() {
    let g = bare(&[&["a"], &["bb"]]).set_static_column_width(true);
    assert_eq!(g.largest_width(), 2);
    assert_eq!(g.effective_widths(), vec![2, 2]);
    let out = plain(&g.render());
    assert_eq!(out, "┏━━━━┯━━━━┓\n┃ a  │ bb ┃\n┗━━━━┷━━━━┛");
}

#[test]
fn row_labels_right_aligned_in_gutter() {
    let g = Grid::new()
        .set_draw_x_labels(false)
        .set_y_labels(labels(&["x", "long"]))
        .set_grid(cells(&[&["1", "2"]]));
    assert_eq!(g.label_width(), 4);
    let out = plain(&g.render());
    let lines: Vec<&str> = out.split('\n').collect();
    assert_eq!(lines[0], "─────┲━━━┓");
    assert_eq!(lines[1], "   x ┃ 1 ┃");
    assert_eq!(lines[2], "─────╂───┨");
    assert_eq!(lines[3], "long ┃ 2 ┃");
    assert_eq!(lines[4], "─────┺━━━┛");
    assert_eq!(lines.len(), 5);
}

#[test]
fn no_labels_single_cell_three_lines() {
    let g = bare(&[&["z"]]);
    let out = plain(&g.render());
    assert_eq!(out, "┏━━━┓\n┃ z ┃\n┗━━━┛");
    assert_eq!(out.split('\n').count(), 3);
}

#[test]
fn both_labels_full_layout() {
    let g = Grid::new()
        .set_x_labels(labels(&["A", "Bee"]))
        .set_y_labels(labels(&["r0", "r1"]))
        .set_grid(cells(&[&["1", "22"], &["3", "4"]]));
    assert_eq!(g.column_widths(), vec![2, 3]);
    let out = plain(&g.render());
    let expected = [
        "   │ A  │ Bee │",
        "───╆━━━━┿━━━━━┪",
        "r0 ┃ 1  │  3  ┃",
        "───╂────┼─────┨",
        "r1 ┃ 22 │  4  ┃",
        "───┺━━━━┷━━━━━┛",
    ]
    .join("\n");
    assert_eq!(out, expected);
}

#[test]
fn column_labels_without_row_labels() {
    let g = Grid::new()
        .set_draw_y_labels(false)
        .set_x_labels(labels(&["wide"]))
        .set_grid(cells(&[&["a"]]));
    assert_eq!(g.column_widths(), vec![4]);
    let out = plain(&g.render());
    assert_eq!(out, "│ wide │\n┢━━━━━━┪\n┃  a   ┃\n┗━━━━━━┛");
}

#[test]
fn hidden_column_labels_do_not_widen_columns() {
    let g = Grid::new()
        .set_draw_x_labels(false)
        .set_draw_y_labels(false)
        .set_x_labels(labels(&["wide"]))
        .set_grid(cells(&[&["a"]]));
    assert_eq!(g.column_widths(), vec![1]);
}

#[test]
fn empty_cells_have_zero_width() {
    let g = bare(&[&[""]]);
    assert_eq!(g.column_widths(), vec![0]);
    assert_eq!(plain(&g.render()), "┏━━┓\n┃  ┃\n┗━━┛");
}

#[test]
fn render_twice_is_identical() {
    let g = Grid::new()
        .set_line_color(Color::Blue)
        .set_y_labels(labels(&["a"]))
        .set_x_labels(labels(&["b"]))
        .set_grid(cells(&[&["c"]]));
    let first = g.render();
    let second = g.render();
    assert_eq!(plain(&first), plain(&second));
    let c1: Vec<_> = first.as_slice().iter().map(|c| c.color).collect();
    let c2: Vec<_> = second.as_slice().iter().map(|c| c.color).collect();
    assert_eq!(c1, c2);
}

#[test]
fn ragged_grid_is_not_renderable() {
    let g = bare(&[&["a", "b"], &["c"]]);
    assert!(!g.is_renderable());
    assert!(bare(&[&["a"], &["c"]]).is_renderable());
}

#[test]
fn empty_grid_is_not_renderable() {
    assert!(!Grid::new().is_renderable());
    assert!(!bare(&[&[]]).is_renderable());
}

#[test]
fn missing_labels_make_grid_not_renderable() {
    let g = Grid::new().set_y_labels(labels(&["r"])).set_grid(cells(&[&["a"]]));
    assert!(!g.is_renderable());
    let g = g.set_x_labels(labels(&["c"]));
    assert!(g.is_renderable());
}

#[test]
fn centering_puts_extra_space_right() {
    assert_eq!(centering_pads(1, 4), (1, 2));
    assert_eq!(centering_pads(2, 4), (1, 1));
    assert_eq!(centering_pads(0, 5), (2, 3));
    assert_eq!(centering_pads(3, 3), (0, 0));
}

#[test]
fn line_color_applies_to_borders_only() {
    let g = bare(&[&["a"]]).set_line_color(Color::Red);
    let out = g.render();
    for c in out.as_slice() {
        match c.ch {
            ' ' | 'a' | '\n' => assert_eq!(c.color, None),
            _ => assert_eq!(c.color, Some(Color::Red)),
        }
    }
}

#[test]
fn default_colors_apply_only_at_attach_time() {
    let g = Grid::new()
        .set_draw_x_labels(false)
        .set_draw_y_labels(false)
        .set_grid(cells(&[&["a"]]))
        .set_cell_color(Color::Green);
    assert_eq!(g.cell(0, 0).as_slice()[0].color, None);
    let mut explicit = ColoredString::from("b");
    explicit.push_char_c('c', Some(Color::Red));
    let g = g.set_grid(vec![vec![explicit]]);
    let cell = g.cell(0, 0).as_slice();
    assert_eq!(cell[0].color, Some(Color::Green));
    assert_eq!(cell[1].color, Some(Color::Red));
}

#[test]
fn label_colors_fill_uncolored_labels() {
    let g = Grid::new()
        .set_x_label_color(Color::Yellow)
        .set_y_label_color(Color::Cyan)
        .set_x_labels(labels(&["x"]))
        .set_y_labels(labels(&["y"]));
    assert_eq!(g.x_label(0).as_slice()[0].color, Some(Color::Yellow));
    assert_eq!(g.y_label(0).as_slice()[0].color, Some(Color::Cyan));
}

#[test]
fn new_grid_defaults() {
    let g = Grid::new();
    assert!(g.draw_x_labels());
    assert!(g.draw_y_labels());
    assert_eq!(g.num_columns(), 0);
    assert_eq!(g.num_rows(), 0);
    assert_eq!(g.line_color(), None);
}
