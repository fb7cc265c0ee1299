//! Styled text: characters that each carry an optional foreground color.
use vstd::prelude::*;

verus! {

/// Relies on `termcolor::Color` only as a `Copy` value carried through:
/// the library never looks inside a color.
#[verifier::external_type_specification]
#[verifier::external_body]
pub struct ExColor(termcolor::Color);

/// A single display character with an optional foreground color.
#[derive(Clone, Copy)]
pub struct ColoredChar {
    pub ch: char,
    pub color: Option<termcolor::Color>,
}

/// The styled character `c` with color `color`.
pub open spec fn styled(c: char, color: Option<termcolor::Color>) -> ColoredChar {
    ColoredChar { ch: c, color }
}

/// The color that a character ends up with when `default` fills it in.
pub open spec fn fill_color(
    color: Option<termcolor::Color>,
    default: Option<termcolor::Color>,
) -> Option<termcolor::Color> {
    if color is None {
        default
    } else {
        color
    }
}

impl ColoredChar {
    /// An uncolored character.
    pub fn new(ch: char) -> (r: Self)
        ensures
            r == styled(ch, None),
    {
        ColoredChar { ch, color: None }
    }

    /// The same character with its color replaced by `color`.
    pub fn color(self, color: Option<termcolor::Color>) -> (r: Self)
        ensures
            r == styled(self.ch, color),
    {
        let mut c = self;
        c.color = color;
        c
    }

    /// Gives the character the color `color` if it has none yet.
    pub fn apply_default_color(&mut self, color: Option<termcolor::Color>)
        ensures
            final(self).ch == old(self).ch,
            final(self).color == fill_color(old(self).color, color),
    {
        if self.color.is_none() {
            self.color = color;
        }
    }
}

/// `n` copies of the styled character `c`.
pub open spec fn repeated(c: ColoredChar, n: nat) -> Seq<ColoredChar> {
    Seq::new(n, |_i: int| c)
}

/// The characters of `s`, each with color `color`.
pub open spec fn styled_str(s: Seq<char>, color: Option<termcolor::Color>) -> Seq<ColoredChar> {
    s.map_values(|c: char| styled(c, color))
}

/// `s` with `default` filled in where a character has no color.
pub open spec fn with_default_color(
    s: Seq<ColoredChar>,
    default: Option<termcolor::Color>,
) -> Seq<ColoredChar> {
    s.map_values(|c: ColoredChar| styled(c.ch, fill_color(c.color, default)))
}

/// `s` with every character colored `color`.
pub open spec fn recolored(s: Seq<ColoredChar>, color: termcolor::Color) -> Seq<ColoredChar> {
    s.map_values(|c: ColoredChar| styled(c.ch, Some(color)))
}

/// An ordered run of styled characters, in display order.
pub struct ColoredString {
    chars: Vec<ColoredChar>,
}

impl View for ColoredString {
    type V = Seq<ColoredChar>;

    closed spec fn view(&self) -> Seq<ColoredChar> {
        self.chars@
    }
}

impl ColoredString {
    /// The empty styled text.
    pub fn new() -> (r: Self)
        ensures
            r@ == Seq::<ColoredChar>::empty(),
    {
        ColoredString { chars: Vec::new() }
    }

    /// The characters of `string`, uncolored.
    pub fn from(string: &str) -> (r: Self)
        ensures
            r@ == styled_str(string@, None),
    {
        let mut r = ColoredString::new();
        r.push_str(string);
        r
    }

    /// The same text with every character colored `color`.
    pub fn set_color(self, color: termcolor::Color) -> (r: Self)
        ensures
            r@ == recolored(self@, color),
    {
        let mut s = self;
        let n = s.chars.len();
        for i in 0..n
            invariant
                n == self@.len(),
                s@.len() == n,
                forall|k: int| 0 <= k < i ==> s@[k] == styled(self@[k].ch, Some(color)),
                forall|k: int| i <= k < n ==> s@[k] == self@[k],
        {
            let c = s.chars[i].ch;
            s.chars.set(i, ColoredChar { ch: c, color: Some(color) });
        }
        assert(s@ =~= recolored(self@, color));
        s
    }

    /// The characters of `string`, each colored `color`.
    pub fn from_c(string: &str, color: Option<termcolor::Color>) -> (r: Self)
        ensures
            r@ == styled_str(string@, color),
    {
        let mut r = ColoredString::new();
        r.push_str_c(string, color);
        r
    }

    /// The number of characters, which is the display width.
    pub fn len(&self) -> (r: usize)
        ensures
            r == self@.len(),
    {
        self.chars.len()
    }

    /// The characters in display order.
    pub fn as_slice(&self) -> (r: &[ColoredChar])
        ensures
            r@ == self@,
    {
        self.chars.as_slice()
    }

    /// Appends an uncolored character.
    pub fn push_char(&mut self, ch: char)
        ensures
            final(self)@ == old(self)@.push(styled(ch, None)),
    {
        self.chars.push(ColoredChar::new(ch));
    }

    /// Appends a character with color `color`.
    pub fn push_char_c(&mut self, ch: char, color: Option<termcolor::Color>)
        ensures
            final(self)@ == old(self)@.push(styled(ch, color)),
    {
        self.chars.push(ColoredChar::new(ch).color(color));
    }

    /// Appends `count` uncolored copies of `ch`.
    pub fn push_char_rep(&mut self, ch: char, count: usize)
        ensures
            final(self)@ == old(self)@ + repeated(styled(ch, None), count as nat),
    {
        self.push_char_rep_c(ch, None, count);
    }

    /// Appends `count` copies of `ch` with color `color`.
    pub fn push_char_rep_c(&mut self, ch: char, color: Option<termcolor::Color>, count: usize)
        ensures
            final(self)@ == old(self)@ + repeated(styled(ch, color), count as nat),
    {
        let ghost start = self@;
        for i in 0..count
            invariant
                self@ == start + repeated(styled(ch, color), i as nat),
        {
            self.chars.push(ColoredChar::new(ch).color(color));
            assert(self@ =~= start + repeated(styled(ch, color), (i + 1) as nat));
        }
    }

    /// Appends the characters of `string`, uncolored.
    pub fn push_str(&mut self, string: &str)
        ensures
            final(self)@ == old(self)@ + styled_str(string@, None),
    {
        self.push_str_c(string, None);
    }

    /// Appends the characters of `string`, each colored `color`.
    pub fn push_str_c(&mut self, string: &str, color: Option<termcolor::Color>)
        ensures
            final(self)@ == old(self)@ + styled_str(string@, color),
    {
        let ghost start = self@;
        let n = string.unicode_len();
        for i in 0..n
            invariant
                n == string@.len(),
                self@ == start + styled_str(string@.take(i as int), color),
        {
            let c = string.get_char(i);
            self.chars.push(ColoredChar::new(c).color(color));
            assert(string@.take(i + 1) =~= string@.take(i as int).push(c));
            assert(self@ =~= start + styled_str(string@.take(i + 1), color));
        }
        assert(string@.take(n as int) =~= string@);
    }

    /// This text followed by the uncolored characters of `string`.
    pub fn chain_str(self, string: &str) -> (r: Self)
        ensures
            r@ == self@ + styled_str(string@, None),
    {
        let mut s = self;
        s.push_str(string);
        s
    }

    /// This text followed by the characters of `string`, colored `color`.
    pub fn chain_str_c(self, string: &str, color: Option<termcolor::Color>) -> (r: Self)
        ensures
            r@ == self@ + styled_str(string@, color),
    {
        let mut s = self;
        s.push_str_c(string, color);
        s
    }

    /// Appends a copy of every character of `string`.
    pub fn push_colored_string(&mut self, string: &ColoredString)
        ensures
            final(self)@ == old(self)@ + string@,
    {
        let ghost start = self@;
        let n = string.chars.len();
        for i in 0..n
            invariant
                n == string@.len(),
                self@ == start + string@.take(i as int),
        {
            self.chars.push(string.chars[i]);
            assert(string@.take(i + 1) =~= string@.take(i as int).push(string@[i as int]));
        }
        assert(string@.take(n as int) =~= string@);
    }

    /// Gives `color` to every character that has no color yet; colored
    /// characters keep theirs.
    pub fn apply_default_color(&mut self, color: Option<termcolor::Color>)
        ensures
            final(self)@ == with_default_color(old(self)@, color),
    {
        let ghost start = self@;
        let n = self.chars.len();
        for i in 0..n
            invariant
                n == start.len(),
                self@.len() == n,
                forall|k: int| 0 <= k < i ==> self@[k] == styled(start[k].ch, fill_color(start[k].color, color)),
                forall|k: int| i <= k < n ==> self@[k] == start[k],
        {
            let mut c = self.chars[i];
            c.apply_default_color(color);
            self.chars.set(i, c);
        }
        assert(self@ =~= with_default_color(start, color));
    }
}

} // verus!
