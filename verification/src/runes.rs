//! Styled character cells and runs of them.
//!
//! A [`Rune`] is the state of one screen position: an optional displayed
//! character, optional foreground and background colors, and a bold flag.
//! An unset attribute is transparent: composing one rune over another keeps
//! the lower value wherever the upper one is unset. [`Runes`] is an ordered
//! run of cells, usually built from a string, with uniform style mutation.

use vstd::prelude::*;

verus! {

/// A terminal color. The set mirrors the standard 4-bit palette plus
/// 24-bit RGB and 8-bit indexed colors, so an application layer can map it
/// one-for-one onto whatever the terminal backend expects.
#[derive(Clone, Copy, Debug, PartialEq, Eq, Structural)]
pub enum Color {
    Reset,
    Black,
    DarkGrey,
    Red,
    DarkRed,
    Green,
    DarkGreen,
    Yellow,
    DarkYellow,
    Blue,
    DarkBlue,
    Magenta,
    DarkMagenta,
    Cyan,
    DarkCyan,
    White,
    Grey,
    Rgb { r: u8, g: u8, b: u8 },
    AnsiValue(u8),
}

/// The state of the screen at a single position: the character content and
/// the styling that will be rendered there. A rune with `content == None`
/// is empty and, when composited at the canvas level, leaves the cell
/// beneath it untouched.
#[derive(Clone, Copy, Debug, PartialEq, Eq)]
pub struct Rune {
    pub content: Option<char>,
    pub fg: Option<Color>,
    pub bg: Option<Color>,
    pub bold: bool,
}

/// The fully transparent rune: no character, no styling.
pub open spec fn empty_rune() -> Rune {
    Rune { content: None, fg: None, bg: None, bold: false }
}

/// Compose rune `b` over rune `a`, attribute by attribute: each attribute
/// of the result is `b`'s wherever `b` sets it, and `a`'s elsewhere. Bold
/// is sticky: the result is bold if either rune is.
pub open spec fn overlay(a: Rune, b: Rune) -> Rune {
    Rune {
        content: if b.content is Some {
            b.content
        } else {
            a.content
        },
        fg: if b.fg is Some {
            b.fg
        } else {
            a.fg
        },
        bg: if b.bg is Some {
            b.bg
        } else {
            a.bg
        },
        bold: a.bold || b.bold,
    }
}

/// Composing the fully transparent rune over `a` gives back `a`, and
/// composing `a` over the fully transparent rune gives back `a`: the empty
/// rune is the identity of [`overlay`] on both sides.
///
/// This holds only of the fully transparent rune. A rune with no character
/// but with styling set is not an identity: for example, with
/// `b == Rune { content: None, fg: Some(Color::Red), bg: None, bold: false }`
/// the composition takes `b`'s foreground.
pub proof fn lemma_overlay_identity(a: Rune)
    ensures
        overlay(a, empty_rune()) == a,
        overlay(empty_rune(), a) == a,
{
}

/// Whenever the upper rune has a character, the composition shows that
/// character; and each styling attribute of the composition is the upper
/// rune's wherever the upper rune sets it, and the lower rune's elsewhere.
pub proof fn lemma_overlay_attributes(a: Rune, b: Rune)
    ensures
        b.content is Some ==> overlay(a, b).content == b.content,
        b.content is None ==> overlay(a, b).content == a.content,
        overlay(a, b).fg == if b.fg is Some {
            b.fg
        } else {
            a.fg
        },
        overlay(a, b).bg == if b.bg is Some {
            b.bg
        } else {
            a.bg
        },
        overlay(a, b).bold == (a.bold || b.bold),
{
}

/// [`overlay`] is associative, so the result of a nested composition does
/// not depend on the grouping of the compositions.
pub proof fn lemma_overlay_associative(a: Rune, b: Rune, c: Rune)
    ensures
        overlay(overlay(a, b), c) == overlay(a, overlay(b, c)),
{
}

impl Default for Rune {
    /// The fully transparent rune.
    fn default() -> (r: Rune)
        ensures
            r == empty_rune(),
    {
        Rune { content: None, fg: None, bg: None, bold: false }
    }
}

impl Rune {
    /// Create a new empty rune; the setter methods below refine it in a
    /// builder style.
    pub fn new() -> (r: Rune)
        ensures
            r == empty_rune(),
    {
        Rune { content: None, fg: None, bg: None, bold: false }
    }

    /// A rune displaying the given character, with no styling.
    pub fn from_char(c: char) -> (r: Rune)
        ensures
            r == (Rune { content: Some(c), ..empty_rune() }),
    {
        Rune { content: Some(c), fg: None, bg: None, bold: false }
    }

    /// A space glyph on the given background color; filling a region with
    /// it paints the region.
    pub fn from_bg(color: Color) -> (r: Rune)
        ensures
            r == (Rune { content: Some(' '), bg: Some(color), ..empty_rune() }),
    {
        Rune { content: Some(' '), fg: None, bg: Some(color), bold: false }
    }

    /// Set the displayed character.
    pub fn content(self, content: char) -> (r: Rune)
        ensures
            r == (Rune { content: Some(content), ..self }),
    {
        Rune { content: Some(content), ..self }
    }

    /// Set the background color.
    pub fn bg(self, bg: Color) -> (r: Rune)
        ensures
            r == (Rune { bg: Some(bg), ..self }),
    {
        Rune { bg: Some(bg), ..self }
    }

    /// Set the foreground color.
    pub fn fg(self, fg: Color) -> (r: Rune)
        ensures
            r == (Rune { fg: Some(fg), ..self }),
    {
        Rune { fg: Some(fg), ..self }
    }

    /// Set the bold flag.
    pub fn bold(self) -> (r: Rune)
        ensures
            r == (Rune { bold: true, ..self }),
    {
        Rune { bold: true, ..self }
    }

    /// Whether the two runes agree in every attribute.
    pub fn same_as(&self, other: &Rune) -> (r: bool)
        ensures
            r == (*self == *other),
    {
        let content_eq = match (self.content, other.content) {
            (Some(a), Some(b)) => a == b,
            (None, None) => true,
            _ => false,
        };
        let fg_eq = match (self.fg, other.fg) {
            (Some(a), Some(b)) => a == b,
            (None, None) => true,
            _ => false,
        };
        let bg_eq = match (self.bg, other.bg) {
            (Some(a), Some(b)) => a == b,
            (None, None) => true,
            _ => false,
        };
        content_eq && fg_eq && bg_eq && self.bold == other.bold
    }

    /// Compose `b` over `self`; the executable counterpart of [`overlay`].
    pub fn compose(self, b: Rune) -> (r: Rune)
        ensures
            r == overlay(self, b),
    {
        Rune {
            content: if b.content.is_some() {
                b.content
            } else {
                self.content
            },
            fg: if b.fg.is_some() {
                b.fg
            } else {
                self.fg
            },
            bg: if b.bg.is_some() {
                b.bg
            } else {
                self.bg
            },
            bold: self.bold || b.bold,
        }
    }
}

/// An ordered run of runes, usually built from a string with one rune per
/// character. A run is constructed afresh for each insertion and consumed
/// by the canvas; it is not retained.
#[derive(Clone, Debug)]
pub struct Runes(pub Vec<Rune>);

impl Runes {
    /// Wrap an explicit vector of runes.
    pub fn new(runes: Vec<Rune>) -> (r: Runes)
        ensures
            r.0@ == runes@,
    {
        Runes(runes)
    }

    /// A run of length one.
    pub fn from_rune(rune: Rune) -> (r: Runes)
        ensures
            r.0@ == seq![rune],
    {
        let mut v: Vec<Rune> = Vec::new();
        v.push(rune);
        Runes(v)
    }

    /// Build a run from a string: one rune per character, each with that
    /// character as content and no styling.
    pub fn from_str(s: &str) -> (r: Runes)
        ensures
            r.0@.len() == s@.len(),
            forall|i: int|
                0 <= i < s@.len() ==> r.0@[i] == (Rune { content: Some(s@[i]), ..empty_rune() }),
    {
        let n = s.unicode_len();
        let mut v: Vec<Rune> = Vec::new();
        let mut i: usize = 0;
        while i < n
            invariant
                n == s@.len(),
                i <= n,
                v@.len() == i,
                forall|j: int|
                    0 <= j < i ==> v@[j] == (Rune { content: Some(s@[j]), ..empty_rune() }),
            decreases n - i,
        {
            let c = s.get_char(i);
            v.push(Rune { content: Some(c), fg: None, bg: None, bold: false });
            i = i + 1;
        }
        Runes(v)
    }

    /// The number of runes in the run.
    pub fn len(&self) -> (r: usize)
        ensures
            r == self.0@.len(),
    {
        self.0.len()
    }

    /// Set the foreground color of every rune in the run.
    pub fn fg(self, color: Color) -> (r: Runes)
        ensures
            r.0@.len() == self.0@.len(),
            forall|i: int|
                0 <= i < self.0@.len() ==> r.0@[i] == (Rune { fg: Some(color), ..self.0@[i] }),
    {
        let mut v = self.0;
        let ghost orig = v@;
        let mut i: usize = 0;
        while i < v.len()
            invariant
                v@.len() == orig.len(),
                i <= orig.len(),
                forall|j: int| 0 <= j < i ==> v@[j] == (Rune { fg: Some(color), ..orig[j] }),
                forall|j: int| i <= j < orig.len() ==> v@[j] == orig[j],
            decreases orig.len() - i,
        {
            v[i].fg = Some(color);
            i = i + 1;
        }
        Runes(v)
    }

    /// Clear the foreground color of every rune in the run.
    pub fn clear_fg(self) -> (r: Runes)
        ensures
            r.0@.len() == self.0@.len(),
            forall|i: int| 0 <= i < self.0@.len() ==> r.0@[i] == (Rune { fg: None, ..self.0@[i] }),
    {
        let mut v = self.0;
        let ghost orig = v@;
        let mut i: usize = 0;
        while i < v.len()
            invariant
                v@.len() == orig.len(),
                i <= orig.len(),
                forall|j: int| 0 <= j < i ==> v@[j] == (Rune { fg: None, ..orig[j] }),
                forall|j: int| i <= j < orig.len() ==> v@[j] == orig[j],
            decreases orig.len() - i,
        {
            v[i].fg = None;
            i = i + 1;
        }
        Runes(v)
    }

    /// Set the background color of every rune in the run.
    pub fn bg(self, color: Color) -> (r: Runes)
        ensures
            r.0@.len() == self.0@.len(),
            forall|i: int|
                0 <= i < self.0@.len() ==> r.0@[i] == (Rune { bg: Some(color), ..self.0@[i] }),
    {
        let mut v = self.0;
        let ghost orig = v@;
        let mut i: usize = 0;
        while i < v.len()
            invariant
                v@.len() == orig.len(),
                i <= orig.len(),
                forall|j: int| 0 <= j < i ==> v@[j] == (Rune { bg: Some(color), ..orig[j] }),
                forall|j: int| i <= j < orig.len() ==> v@[j] == orig[j],
            decreases orig.len() - i,
        {
            v[i].bg = Some(color);
            i = i + 1;
        }
        Runes(v)
    }

    /// Clear the background color of every rune in the run.
    pub fn clear_bg(self) -> (r: Runes)
        ensures
            r.0@.len() == self.0@.len(),
            forall|i: int| 0 <= i < self.0@.len() ==> r.0@[i] == (Rune { bg: None, ..self.0@[i] }),
    {
        let mut v = self.0;
        let ghost orig = v@;
        let mut i: usize = 0;
        while i < v.len()
            invariant
                v@.len() == orig.len(),
                i <= orig.len(),
                forall|j: int| 0 <= j < i ==> v@[j] == (Rune { bg: None, ..orig[j] }),
                forall|j: int| i <= j < orig.len() ==> v@[j] == orig[j],
            decreases orig.len() - i,
        {
            v[i].bg = None;
            i = i + 1;
        }
        Runes(v)
    }

    /// Set the bold flag on every rune in the run.
    pub fn bold(self) -> (r: Runes)
        ensures
            r.0@.len() == self.0@.len(),
            forall|i: int| 0 <= i < self.0@.len() ==> r.0@[i] == (Rune { bold: true, ..self.0@[i] }),
    {
        let mut v = self.0;
        let ghost orig = v@;
        let mut i: usize = 0;
        while i < v.len()
            invariant
                v@.len() == orig.len(),
                i <= orig.len(),
                forall|j: int| 0 <= j < i ==> v@[j] == (Rune { bold: true, ..orig[j] }),
                forall|j: int| i <= j < orig.len() ==> v@[j] == orig[j],
            decreases orig.len() - i,
        {
            v[i].bold = true;
            i = i + 1;
        }
        Runes(v)
    }

    /// Append another run to this one.
    pub fn add(&mut self, runes: Runes)
        ensures
            final(self).0@ == old(self).0@ + runes.0@,
    {
        let mut other = runes.0;
        self.0.append(&mut other);
    }
}

/// Conversion of string-like values into a run of runes.
pub trait ToRuneExt {
    /// Build a run with one content-only rune per character.
    fn to_runes(&self) -> Runes;
}

impl ToRuneExt for str {
    fn to_runes(&self) -> (r: Runes)
        ensures
            r.0@.len() == self@.len(),
            forall|i: int|
                0 <= i < self@.len() ==> r.0@[i] == (Rune { content: Some(self@[i]), ..empty_rune() }),
    {
        Runes::from_str(self)
    }
}

impl ToRuneExt for String {
    fn to_runes(&self) -> (r: Runes)
        ensures
            r.0@.len() == self@.len(),
            forall|i: int|
                0 <= i < self@.len() ==> r.0@[i] == (Rune { content: Some(self@[i]), ..empty_rune() }),
    {
        Runes::from_str(self.as_str())
    }
}

} // verus!
