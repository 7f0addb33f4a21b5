//! Colors and style modifiers of a terminal cell.
use vstd::prelude::*;

verus! {

/// A cell color: the terminal default, one of sixteen palette entries, an entry
/// of the 256-color palette, or a 24-bit color.
#[derive(Clone, Copy, Debug, PartialEq, Eq, Structural)]
pub enum CellColor {
    Reset,
    Black,
    Red,
    Green,
    Yellow,
    Blue,
    Magenta,
    Cyan,
    Gray,
    DarkGray,
    LightRed,
    LightGreen,
    LightYellow,
    LightBlue,
    LightMagenta,
    LightCyan,
    White,
    Indexed(u8),
    Rgb(u8, u8, u8),
}

/// A set of style flags, one field per flag.
#[derive(Clone, Copy, Debug, PartialEq, Eq, Structural)]
pub struct Modifier {
    pub bold: bool,
    pub dim: bool,
    pub italic: bool,
    pub underlined: bool,
    pub slow_blink: bool,
    pub rapid_blink: bool,
    pub reversed: bool,
    pub crossed_out: bool,
}

/// The flags of `a` that are not in `b`.
pub open spec fn minus(a: Modifier, b: Modifier) -> Modifier {
    Modifier {
        bold: a.bold && !b.bold,
        dim: a.dim && !b.dim,
        italic: a.italic && !b.italic,
        underlined: a.underlined && !b.underlined,
        slow_blink: a.slow_blink && !b.slow_blink,
        rapid_blink: a.rapid_blink && !b.rapid_blink,
        reversed: a.reversed && !b.reversed,
        crossed_out: a.crossed_out && !b.crossed_out,
    }
}

pub open spec fn no_flags() -> Modifier {
    Modifier {
        bold: false,
        dim: false,
        italic: false,
        underlined: false,
        slow_blink: false,
        rapid_blink: false,
        reversed: false,
        crossed_out: false,
    }
}

impl Modifier {
    /// The set with no flag.
    pub fn empty() -> (r: Modifier)
        ensures
            r == no_flags(),
    {
        Modifier {
            bold: false,
            dim: false,
            italic: false,
            underlined: false,
            slow_blink: false,
            rapid_blink: false,
            reversed: false,
            crossed_out: false,
        }
    }

    /// The flags of `self` that are not in `other`.
    pub fn difference(self, other: Modifier) -> (r: Modifier)
        ensures
            r == minus(self, other),
    {
        Modifier {
            bold: self.bold && !other.bold,
            dim: self.dim && !other.dim,
            italic: self.italic && !other.italic,
            underlined: self.underlined && !other.underlined,
            slow_blink: self.slow_blink && !other.slow_blink,
            rapid_blink: self.rapid_blink && !other.rapid_blink,
            reversed: self.reversed && !other.reversed,
            crossed_out: self.crossed_out && !other.crossed_out,
        }
    }
}

} // verus!
