use boxgrid::grid_print::{Color, ColoredChar, ColoredString};

fn plain(s: &ColoredString) -> String {
    s.as_slice().iter().map(|c| c.ch).collect()
}

fn colors(s: &ColoredString) -> Vec<Option<Color>> {
    s.as_slice().iter().map(|c| c.color).collect()
}

#[test]
fn colored_char_new_has_no_color() {
    let c = ColoredChar::new('q');
    assert_eq!(c.ch, 'q');
    assert_eq!(c.color, None);
}

#[test]
fn colored_char_color_replaces() {
    let c = ColoredChar::new('q').color(Some(Color::Red)).color(Some(Color::Blue));
    assert_eq!(c.color, Some(Color::Blue));
    assert_eq!(c.ch, 'q');
}

#[test]
fn colored_char_default_fills_only_unset() {
    let mut a = ColoredChar::new('a');
    a.apply_default_color(Some(Color::Green));
    assert_eq!(a.color, Some(Color::Green));
    let mut b = ColoredChar::new('b').color(Some(Color::Red));
    b.apply_default_color(Some(Color::Green));
    assert_eq!(b.color, Some(Color::Red));
}

#[test]
fn from_keeps_characters_uncolored() {
    let s = ColoredString::from("héllo");
    assert_eq!(plain(&s), "héllo");
    assert_eq!(s.len(), 5);
    assert!(colors(&s).iter().all(|c| c.is_none()));
}

#[test]
fn new_is_empty() {
    let s = ColoredString::new();
    assert_eq!(s.len(), 0);
    assert_eq!(plain(&s), "");
}

#[test]
fn from_c_colors_every_character() {
    let s = ColoredString::from_c("ab", Some(Color::Cyan));
    assert_eq!(plain(&s), "ab");
    assert_eq!(colors(&s), vec![Some(Color::Cyan), Some(Color::Cyan)]);
}

#[test]
fn set_color_overwrites_every_character() {
    let s = ColoredString::from_c("a", Some(Color::Red)).chain_str("b").set_color(Color::Yellow);
    assert_eq!(colors(&s), vec![Some(Color::Yellow), Some(Color::Yellow)]);
    assert_eq!(plain(&s), "ab");
}

#[test]
fn push_operations_append_in_order() {
    let mut s = ColoredString::new();
    s.push_char('a');
    s.push_char_c('b', Some(Color::Red));
    s.push_char_rep('-', 3);
    s.push_char_rep_c('=', Some(Color::Blue), 2);
    s.push_str("xy");
    s.push_str_c("z", Some(Color::Green));
    assert_eq!(plain(&s), "ab---==xyz");
    assert_eq!(
        colors(&s),
        vec![
            None,
            Some(Color::Red),
            None,
            None,
            None,
            Some(Color::Blue),
            Some(Color::Blue),
            None,
            None,
            Some(Color::Green)
        ]
    );
}

#[test]
fn push_char_rep_zero_appends_nothing() {
    let mut s = ColoredString::from("k");
    s.push_char_rep('x', 0);
    assert_eq!(plain(&s), "k");
}

#[test]
fn chain_str_c_appends_colored() {
    let s = ColoredString::from("a").chain_str_c("bc", Some(Color::Magenta));
    assert_eq!(plain(&s), "abc");
    assert_eq!(colors(&s), vec![None, Some(Color::Magenta), Some(Color::Magenta)]);
}

#[test]
fn push_colored_string_copies_colors() {
    let mut s = ColoredString::from("a");
    let t = ColoredString::from_c("bc", Some(Color::Red));
    s.push_colored_string(&t);
    assert_eq!(plain(&s), "abc");
    assert_eq!(colors(&s), vec![None, Some(Color::Red), Some(Color::Red)]);
    assert_eq!(plain(&t), "bc");
}

#[test]
fn apply_default_color_keeps_explicit_colors() {
    let mut s = ColoredString::from("a").chain_str_c("b", Some(Color::Red));
    s.apply_default_color(Some(Color::White));
    assert_eq!(colors(&s), vec![Some(Color::White), Some(Color::Red)]);
}
