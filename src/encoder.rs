//! The frame encoder: turns a row-major stream of changed cells into the text
//! that brings the terminal to show them, with as few control codes as the
//! running cursor and style state allow.
use vstd::prelude::*;
use crate::buffer::Cell;
use crate::style::{CellColor, Modifier, minus, no_flags};
use crate::zui::{bg_code, bg_text, fg_code, fg_text, style_code, style_text};

verus! {

/// `s` where `b` holds, else nothing.
pub open spec fn when<A>(b: bool, s: Seq<A>) -> Seq<A> {
    if b {
        s
    } else {
        Seq::empty()
    }
}

// ---------------------------------------------------------------------------
// Style codes and the modifier diff

/// One atomic style code of the terminal.
#[derive(Clone, Copy, Debug, PartialEq, Eq, Structural)]
pub enum StyleCode {
    Reverse,
    NoReverse,
    Bold,
    Dim,
    /// Switches off bold and dim together: terminals implement "not bold" so.
    NoBoldOrDim,
    Italic,
    NoItalic,
    Underline,
    NoUnderline,
    Strike,
    NoStrike,
    Blink,
    NoBlink,
    Reset,
}

/// The libzui style that writes a code.
pub open spec fn zui_style_of(c: StyleCode) -> libzui::style::Style {
    match c {
        StyleCode::Reverse => libzui::style::Style::Reverse,
        StyleCode::NoReverse => libzui::style::Style::NoReverse,
        StyleCode::Bold => libzui::style::Style::Bold,
        StyleCode::Dim => libzui::style::Style::Dim,
        StyleCode::NoBoldOrDim => libzui::style::Style::NoDim,
        StyleCode::Italic => libzui::style::Style::Italic,
        StyleCode::NoItalic => libzui::style::Style::NoItalic,
        StyleCode::Underline => libzui::style::Style::Underline,
        StyleCode::NoUnderline => libzui::style::Style::NoUnderline,
        StyleCode::Strike => libzui::style::Style::Strike,
        StyleCode::NoStrike => libzui::style::Style::NoStrike,
        StyleCode::Blink => libzui::style::Style::Blinking,
        StyleCode::NoBlink => libzui::style::Style::NoBlinking,
        StyleCode::Reset => libzui::style::Style::Reset,
    }
}

impl StyleCode {
    /// The libzui style that writes this code.
    pub fn to_zui(self) -> (r: libzui::style::Style)
        ensures
            r == zui_style_of(self),
    {
        match self {
            StyleCode::Reverse => libzui::style::Style::Reverse,
            StyleCode::NoReverse => libzui::style::Style::NoReverse,
            StyleCode::Bold => libzui::style::Style::Bold,
            StyleCode::Dim => libzui::style::Style::Dim,
            StyleCode::NoBoldOrDim => libzui::style::Style::NoDim,
            StyleCode::Italic => libzui::style::Style::Italic,
            StyleCode::NoItalic => libzui::style::Style::NoItalic,
            StyleCode::Underline => libzui::style::Style::Underline,
            StyleCode::NoUnderline => libzui::style::Style::NoUnderline,
            StyleCode::Strike => libzui::style::Style::Strike,
            StyleCode::NoStrike => libzui::style::Style::NoStrike,
            StyleCode::Blink => libzui::style::Style::Blinking,
            StyleCode::NoBlink => libzui::style::Style::NoBlinking,
            StyleCode::Reset => libzui::style::Style::Reset,
        }
    }

    /// The escape text of this code.
    pub fn text(self) -> (r: String)
        ensures
            r@ == style_text(zui_style_of(self)),
    {
        style_code(self.to_zui())
    }
}

/// The codes that take the terminal from style `from` to style `to`: removals
/// first, then additions, each in a fixed order. Removing bold or dim switches
/// both off, so the one of them that stays is switched on again at once; the
/// two blink flags share one code each way.
#[verifier::opaque]
pub open spec fn diff_codes(from: Modifier, to: Modifier) -> Seq<StyleCode> {
    let rm = minus(from, to);
    let add = minus(to, from);
    when(rm.reversed, seq![StyleCode::NoReverse])
        + when(rm.bold, seq![StyleCode::NoBoldOrDim] + when(to.dim, seq![StyleCode::Dim]))
        + when(rm.italic, seq![StyleCode::NoItalic])
        + when(rm.underlined, seq![StyleCode::NoUnderline])
        + when(rm.dim, seq![StyleCode::NoBoldOrDim] + when(to.bold, seq![StyleCode::Bold]))
        + when(rm.crossed_out, seq![StyleCode::NoStrike])
        + when(rm.slow_blink || rm.rapid_blink, seq![StyleCode::NoBlink])
        + when(add.reversed, seq![StyleCode::Reverse])
        + when(add.bold, seq![StyleCode::Bold])
        + when(add.italic, seq![StyleCode::Italic])
        + when(add.underlined, seq![StyleCode::Underline])
        + when(add.dim, seq![StyleCode::Dim])
        + when(add.crossed_out, seq![StyleCode::Strike])
        + when(add.slow_blink || add.rapid_blink, seq![StyleCode::Blink])
}

fn push_when(v: &mut Vec<StyleCode>, b: bool, c: StyleCode)
    ensures
        final(v)@ == old(v)@ + when(b, seq![c]),
{
    if b {
        v.push(c);
    }
    assert(final(v)@ =~= old(v)@ + when(b, seq![c]));
}

/// The ordered style codes from `from` to `to`.
pub fn modifier_diff(from: Modifier, to: Modifier) -> (r: Vec<StyleCode>)
    ensures
        r@ == diff_codes(from, to),
{
    reveal(diff_codes);
    let rm = from.difference(to);
    let add = to.difference(from);
    let mut v: Vec<StyleCode> = Vec::new();
    push_when(&mut v, rm.reversed, StyleCode::NoReverse);
    let ghost g = v@;
    if rm.bold {
        v.push(StyleCode::NoBoldOrDim);
        push_when(&mut v, to.dim, StyleCode::Dim);
    }
    assert(v@ =~= g + when(rm.bold, seq![StyleCode::NoBoldOrDim] + when(to.dim, seq![StyleCode::Dim])));
    push_when(&mut v, rm.italic, StyleCode::NoItalic);
    push_when(&mut v, rm.underlined, StyleCode::NoUnderline);
    let ghost g = v@;
    if rm.dim {
        v.push(StyleCode::NoBoldOrDim);
        push_when(&mut v, to.bold, StyleCode::Bold);
    }
    assert(v@ =~= g + when(rm.dim, seq![StyleCode::NoBoldOrDim] + when(to.bold, seq![StyleCode::Bold])));
    push_when(&mut v, rm.crossed_out, StyleCode::NoStrike);
    push_when(&mut v, rm.slow_blink || rm.rapid_blink, StyleCode::NoBlink);
    push_when(&mut v, add.reversed, StyleCode::Reverse);
    push_when(&mut v, add.bold, StyleCode::Bold);
    push_when(&mut v, add.italic, StyleCode::Italic);
    push_when(&mut v, add.underlined, StyleCode::Underline);
    push_when(&mut v, add.dim, StyleCode::Dim);
    push_when(&mut v, add.crossed_out, StyleCode::Strike);
    push_when(&mut v, add.slow_blink || add.rapid_blink, StyleCode::Blink);
    v
}

/// The text of a sequence of style codes, one after the other.
pub open spec fn codes_text(codes: Seq<StyleCode>) -> Seq<char>
    decreases codes.len(),
{
    if codes.len() == 0 {
        Seq::empty()
    } else {
        codes_text(codes.drop_last()) + style_text(zui_style_of(codes.last()))
    }
}

fn write_codes(out: &mut String, codes: &Vec<StyleCode>)
    ensures
        final(out)@ == old(out)@ + codes_text(codes@),
{
    let mut i: usize = 0;
    while i < codes.len()
        invariant
            i <= codes@.len(),
            out@ == old(out)@ + codes_text(codes@.subrange(0, i as int)),
        decreases codes@.len() - i,
    {
        let t = codes[i].text();
        out.append(t.as_str());
        assert(codes@.subrange(0, i + 1).drop_last() =~= codes@.subrange(0, i as int));
        i = i + 1;
    }
    assert(codes@.subrange(0, i as int) =~= codes@);
}

// ---------------------------------------------------------------------------
// Color mapping

/// Where a palette sends the two grays; terminals disagree on them.
#[derive(Clone, Copy, Debug, PartialEq, Eq, Structural)]
pub enum GrayProfile {
    /// Gray and dark gray both become black.
    AllBlack,
    /// Gray becomes white and dark gray bright black.
    WhiteAndBrightBlack,
}

/// What the target terminal offers: how it shows the grays, and whether it
/// takes 24-bit colors. libzui has no form for the 256-color palette, so an
/// indexed color always falls back to the default color.
#[derive(Clone, Copy, Debug, PartialEq, Eq, Structural)]
pub struct Palette {
    pub gray: GrayProfile,
    pub truecolor: bool,
}

/// The libzui color that shows a cell color under a palette.
#[verifier::opaque]
pub open spec fn zui_color_of(c: CellColor, p: Palette) -> libzui::color::Color {
    match c {
        CellColor::Reset => libzui::color::Color::Reset,
        CellColor::Black => libzui::color::Color::Black,
        CellColor::Red => libzui::color::Color::Red,
        CellColor::Green => libzui::color::Color::Green,
        CellColor::Yellow => libzui::color::Color::Yellow,
        CellColor::Blue => libzui::color::Color::Blue,
        CellColor::Magenta => libzui::color::Color::Purple,
        CellColor::Cyan => libzui::color::Color::Cyan,
        CellColor::Gray => match p.gray {
            GrayProfile::AllBlack => libzui::color::Color::Black,
            GrayProfile::WhiteAndBrightBlack => libzui::color::Color::White,
        },
        CellColor::DarkGray => match p.gray {
            GrayProfile::AllBlack => libzui::color::Color::Black,
            GrayProfile::WhiteAndBrightBlack => libzui::color::Color::BlackLight,
        },
        CellColor::LightRed => libzui::color::Color::RedLight,
        CellColor::LightGreen => libzui::color::Color::GreenLight,
        CellColor::LightYellow => libzui::color::Color::YellowLight,
        CellColor::LightBlue => libzui::color::Color::BlueLight,
        CellColor::LightMagenta => libzui::color::Color::PurpleLight,
        CellColor::LightCyan => libzui::color::Color::CyanLight,
        CellColor::White => libzui::color::Color::White,
        CellColor::Indexed(_) => libzui::color::Color::Reset,
        CellColor::Rgb(r, g, b) => if p.truecolor {
            libzui::color::Color::RGB(r as u16, g as u16, b as u16)
        } else {
            libzui::color::Color::Reset
        },
    }
}

/// The libzui color that shows `c` under palette `p`.
pub fn map_color(c: CellColor, p: Palette) -> (r: libzui::color::Color)
    ensures
        r == zui_color_of(c, p),
{
    reveal(zui_color_of);
    match c {
        CellColor::Reset => libzui::color::Color::Reset,
        CellColor::Black => libzui::color::Color::Black,
        CellColor::Red => libzui::color::Color::Red,
        CellColor::Green => libzui::color::Color::Green,
        CellColor::Yellow => libzui::color::Color::Yellow,
        CellColor::Blue => libzui::color::Color::Blue,
        CellColor::Magenta => libzui::color::Color::Purple,
        CellColor::Cyan => libzui::color::Color::Cyan,
        CellColor::Gray => match p.gray {
            GrayProfile::AllBlack => libzui::color::Color::Black,
            GrayProfile::WhiteAndBrightBlack => libzui::color::Color::White,
        },
        CellColor::DarkGray => match p.gray {
            GrayProfile::AllBlack => libzui::color::Color::Black,
            GrayProfile::WhiteAndBrightBlack => libzui::color::Color::BlackLight,
        },
        CellColor::LightRed => libzui::color::Color::RedLight,
        CellColor::LightGreen => libzui::color::Color::GreenLight,
        CellColor::LightYellow => libzui::color::Color::YellowLight,
        CellColor::LightBlue => libzui::color::Color::BlueLight,
        CellColor::LightMagenta => libzui::color::Color::PurpleLight,
        CellColor::LightCyan => libzui::color::Color::CyanLight,
        CellColor::White => libzui::color::Color::White,
        CellColor::Indexed(_) => libzui::color::Color::Reset,
        CellColor::Rgb(r, g, b) => if p.truecolor {
            libzui::color::Color::RGB(r as u16, g as u16, b as u16)
        } else {
            libzui::color::Color::Reset
        },
    }
}

/// The text that sets the foreground to `c`.
pub fn fg_fragment(c: CellColor, p: Palette) -> (r: String)
    ensures
        r@ == fg_text(zui_color_of(c, p)),
{
    fg_code(map_color(c, p))
}

/// The text that sets the background to `c`.
pub fn bg_fragment(c: CellColor, p: Palette) -> (r: String)
    ensures
        r@ == bg_text(zui_color_of(c, p)),
{
    bg_code(map_color(c, p))
}

// ---------------------------------------------------------------------------
// Cursor motion

/// Whether a write at `last` leaves the cursor at `(x, y)`: only when it was the
/// column just before, on the same row.
pub open spec fn follows(last: Option<(u16, u16)>, x: u16, y: u16) -> bool {
    match last {
        Some(p) => x as int == p.0 as int + 1 && y == p.1,
        None => false,
    }
}

/// Whether a cell at `(x, y)` needs a position code after a write at `last`.
pub fn needs_position_code(last: Option<(u16, u16)>, x: u16, y: u16) -> (r: bool)
    ensures
        r == !follows(last, x, y),
{
    match last {
        Some(p) => !(x as u32 == p.0 as u32 + 1 && y == p.1),
        None => true,
    }
}

/// The decimal text of one digit.
pub open spec fn digit_text(d: nat) -> Seq<char> {
    if d == 0 { "0"@ } else if d == 1 { "1"@ } else if d == 2 { "2"@ } else if d == 3 { "3"@ }
    else if d == 4 { "4"@ } else if d == 5 { "5"@ } else if d == 6 { "6"@ } else if d == 7 { "7"@ }
    else if d == 8 { "8"@ } else { "9"@ }
}

/// The decimal text of a number, without leading zeros.
pub open spec fn decimal(n: nat) -> Seq<char>
    decreases n,
{
    if n < 10 {
        digit_text(n)
    } else {
        decimal(n / 10) + digit_text(n % 10)
    }
}

fn digit_str(d: u32) -> (r: &'static str)
    requires
        d < 10,
    ensures
        r@ == digit_text(d as nat),
{
    if d == 0 { "0" } else if d == 1 { "1" } else if d == 2 { "2" } else if d == 3 { "3" }
    else if d == 4 { "4" } else if d == 5 { "5" } else if d == 6 { "6" } else if d == 7 { "7" }
    else if d == 8 { "8" } else { "9" }
}

fn write_decimal(out: &mut String, n: u32)
    ensures
        final(out)@ == old(out)@ + decimal(n as nat),
    decreases n,
{
    if n < 10 {
        out.append(digit_str(n));
    } else {
        write_decimal(out, n / 10);
        out.append(digit_str(n % 10));
        assert(final(out)@ =~= old(out)@ + decimal(n as nat));
    }
}

/// The code that moves the cursor to column `x`, row `y`: the terminal counts
/// both from one.
pub open spec fn position_text(x: u16, y: u16) -> Seq<char> {
    "\u{1b}["@ + decimal(y as nat + 1) + ";"@ + decimal(x as nat + 1) + "H"@
}

fn write_position(out: &mut String, x: u16, y: u16)
    ensures
        final(out)@ == old(out)@ + position_text(x, y),
{
    out.append("\u{1b}[");
    write_decimal(out, y as u32 + 1);
    out.append(";");
    write_decimal(out, x as u32 + 1);
    out.append("H");
    assert(final(out)@ =~= old(out)@ + position_text(x, y));
}

// ---------------------------------------------------------------------------
// The frame encoder

/// What the encoder believes the terminal holds: where the last cell was
/// written, and the colors and style in force.
#[derive(Clone, Copy, Debug, PartialEq, Eq)]
pub struct EncoderState {
    pub last_position: Option<(u16, u16)>,
    pub fg: CellColor,
    pub bg: CellColor,
    pub modifier: Modifier,
}

/// The state at the start of every frame: nothing written, default colors, no
/// style flags.
pub open spec fn initial_state() -> EncoderState {
    EncoderState {
        last_position: None,
        fg: CellColor::Reset,
        bg: CellColor::Reset,
        modifier: no_flags(),
    }
}

/// The text that writes `cell` at `(x, y)` from state `st`: a position code
/// unless the cursor is already there, the style codes if the flags changed,
/// each color code if that color changed, then the glyph.
pub open spec fn cell_text(st: EncoderState, x: u16, y: u16, cell: Cell, p: Palette) -> Seq<char> {
    when(!follows(st.last_position, x, y), position_text(x, y))
        + when(cell.modifier != st.modifier, codes_text(diff_codes(st.modifier, cell.modifier)))
        + when(cell.fg != st.fg, color_text(cell.fg, p, true))
        + when(cell.bg != st.bg, color_text(cell.bg, p, false))
        + cell.symbol@
}

/// The state after writing `cell` at `(x, y)`.
pub open spec fn after_cell(x: u16, y: u16, cell: Cell) -> EncoderState {
    EncoderState {
        last_position: Some((x, y)),
        fg: cell.fg,
        bg: cell.bg,
        modifier: cell.modifier,
    }
}

/// The text that writes the cells one after the other from state `st`.
pub open spec fn cells_text(st: EncoderState, cells: Seq<(u16, u16, Cell)>, p: Palette) -> Seq<char>
    decreases cells.len(),
{
    if cells.len() == 0 {
        Seq::empty()
    } else {
        let (x, y, cell) = cells[0];
        cell_text(st, x, y, cell, p) + cells_text(after_cell(x, y, cell), cells.drop_first(), p)
    }
}

/// The state after writing the cells from state `st`.
pub open spec fn cells_end(st: EncoderState, cells: Seq<(u16, u16, Cell)>) -> EncoderState {
    if cells.len() == 0 {
        st
    } else {
        let (x, y, cell) = cells.last();
        after_cell(x, y, cell)
    }
}

/// The text that ends every frame: default foreground, default background, and
/// a reset of all style flags.
pub open spec fn reset_text() -> Seq<char> {
    fg_text(libzui::color::Color::Reset) + bg_text(libzui::color::Color::Reset) + style_text(
        libzui::style::Style::Reset,
    )
}

/// The text of a whole frame encoded from state `st`.
pub open spec fn frame_text(st: EncoderState, cells: Seq<(u16, u16, Cell)>, p: Palette) -> Seq<char> {
    cells_text(st, cells, p) + reset_text()
}

fn write_style_change(out: &mut String, from: Modifier, to: Modifier)
    ensures
        final(out)@ == old(out)@ + when(to != from, codes_text(diff_codes(from, to))),
{
    if to != from {
        let codes = modifier_diff(from, to);
        write_codes(out, &codes);
    }
    assert(final(out)@ =~= old(out)@ + when(to != from, codes_text(diff_codes(from, to))));
}

/// The foreground code (or, where `foreground` is false, the background code)
/// for `c`.
pub open spec fn color_text(c: CellColor, p: Palette, foreground: bool) -> Seq<char> {
    if foreground {
        fg_text(zui_color_of(c, p))
    } else {
        bg_text(zui_color_of(c, p))
    }
}

fn write_color_change(out: &mut String, from: CellColor, to: CellColor, p: Palette, foreground: bool)
    ensures
        final(out)@ == old(out)@ + when(to != from, color_text(to, p, foreground)),
{
    if to != from {
        let t = if foreground {
            fg_fragment(to, p)
        } else {
            bg_fragment(to, p)
        };
        out.append(t.as_str());
    }
    assert(final(out)@ =~= old(out)@ + when(to != from, color_text(to, p, foreground)));
}

/// The state after the trailing reset of a frame: colors and style back to
/// their defaults, and no cell written yet.
pub open spec fn finished(st: EncoderState) -> EncoderState {
    EncoderState { last_position: None, fg: CellColor::Reset, bg: CellColor::Reset, modifier: no_flags(), ..st }
}

/// The state after a whole frame encoded from `st`.
pub open spec fn frame_end(st: EncoderState, cells: Seq<(u16, u16, Cell)>) -> EncoderState {
    finished(cells_end(st, cells))
}

impl EncoderState {
    /// The state at the start of a frame.
    pub fn new() -> (r: EncoderState)
        ensures
            r == initial_state(),
    {
        EncoderState {
            last_position: None,
            fg: CellColor::Reset,
            bg: CellColor::Reset,
            modifier: Modifier::empty(),
        }
    }

    /// Appends to `out` the text that writes one cell, and records it.
    pub fn encode_cell(&mut self, x: u16, y: u16, cell: &Cell, p: Palette, out: &mut String)
        ensures
            final(out)@ == old(out)@ + cell_text(*old(self), x, y, *cell, p),
            *final(self) == after_cell(x, y, *cell),
    {
        let ghost st = *self;
        let ghost start = out@;
        if needs_position_code(self.last_position, x, y) {
            write_position(out, x, y);
        }
        assert(out@ =~= start + when(!follows(st.last_position, x, y), position_text(x, y)));
        let ghost a = out@;
        write_style_change(out, self.modifier, cell.modifier);
        let ghost b = out@;
        write_color_change(out, self.fg, cell.fg, p, true);
        let ghost c = out@;
        write_color_change(out, self.bg, cell.bg, p, false);
        let ghost d = out@;
        out.append(cell.symbol.as_str());
        assert(out@ =~= start + cell_text(st, x, y, *cell, p));
        self.last_position = Some((x, y));
        self.fg = cell.fg;
        self.bg = cell.bg;
        self.modifier = cell.modifier;
    }

    /// Appends to `out` the text that writes the cells in order, and records
    /// the last of them.
    pub fn encode_cells(&mut self, cells: &[(u16, u16, Cell)], p: Palette, out: &mut String)
        ensures
            final(out)@ == old(out)@ + cells_text(*old(self), cells@, p),
            *final(self) == cells_end(*old(self), cells@),
    {
        let ghost st0 = *self;
        let ghost out0 = out@;
        let n = cells.len();
        let mut i: usize = 0;
        assert(cells@.subrange(0, 0) =~= Seq::<(u16, u16, Cell)>::empty());
        assert(cells@.subrange(0, n as int) =~= cells@);
        while i < n
            invariant
                n == cells@.len(),
                i <= n,
                out@ + cells_text(*self, cells@.subrange(i as int, n as int), p)
                    == out0 + cells_text(st0, cells@, p),
                *self == cells_end(st0, cells@.subrange(0, i as int)),
            decreases n - i,
        {
            let ghost rest = cells@.subrange(i as int, n as int);
            let ghost before = out@;
            let ghost st = *self;
            let (x, y) = (cells[i].0, cells[i].1);
            self.encode_cell(x, y, &cells[i].2, p, out);
            assert(rest.drop_first() =~= cells@.subrange(i + 1, n as int));
            assert(rest[0] == cells@[i as int]);
            assert(cells@.subrange(0, i + 1).last() == cells@[i as int]);
            assert(before + cells_text(st, rest, p) =~= out@ + cells_text(
                *self,
                cells@.subrange(i + 1, n as int),
                p,
            ));
            i = i + 1;
        }
        assert(cells@.subrange(i as int, n as int) =~= Seq::<(u16, u16, Cell)>::empty());
        assert(out@ =~= out0 + cells_text(st0, cells@, p));
    }

    /// Appends to `out` the text that ends a frame, and returns to the state at
    /// the start of one.
    pub fn finish(&mut self, out: &mut String)
        ensures
            final(out)@ == old(out)@ + reset_text(),
            *final(self) == finished(*old(self)),
    {
        let f = fg_code(libzui::color::Color::Reset);
        out.append(f.as_str());
        let b = bg_code(libzui::color::Color::Reset);
        out.append(b.as_str());
        let s = style_code(libzui::style::Style::Reset);
        out.append(s.as_str());
        assert(out@ =~= old(out)@ + reset_text());
        *self = EncoderState::new();
    }
}

/// The text of one frame: the cells in order, from the state at the start of
/// a frame, then the trailing reset.
pub fn encode(cells: &[(u16, u16, Cell)], p: Palette) -> (r: String)
    ensures
        r@ == frame_text(initial_state(), cells@, p),
{
    let mut state = EncoderState::new();
    let mut out = String::new();
    state.encode_cells(cells, p, &mut out);
    state.finish(&mut out);
    assert(out@ =~= frame_text(initial_state(), cells@, p));
    out
}

/// An encoder for a sequence of frames on one terminal.
pub struct FrameEncoder {
    pub palette: Palette,
    pub state: EncoderState,
}

impl FrameEncoder {
    /// An encoder that has written nothing yet.
    pub fn new(palette: Palette) -> (r: FrameEncoder)
        ensures
            r.palette == palette,
            r.state == initial_state(),
    {
        FrameEncoder { palette, state: EncoderState::new() }
    }

    /// The text of the next frame: the cells in order from the current state,
    /// then the trailing reset.
    pub fn draw(&mut self, cells: &[(u16, u16, Cell)]) -> (r: String)
        ensures
            r@ == frame_text(old(self).state, cells@, old(self).palette),
            final(self).state == frame_end(old(self).state, cells@),
            final(self).palette == old(self).palette,
    {
        let mut out = String::new();
        let p = self.palette;
        self.state.encode_cells(cells, p, &mut out);
        self.state.finish(&mut out);
        assert(out@ =~= frame_text(old(self).state, cells@, p));
        out
    }
}

// ---------------------------------------------------------------------------
// Laws

/// The text of a frame depends on the state before it and on its cells alone.
pub proof fn lemma_encode_deterministic(
    st1: EncoderState,
    st2: EncoderState,
    cells1: Seq<(u16, u16, Cell)>,
    cells2: Seq<(u16, u16, Cell)>,
    p: Palette,
)
    requires
        st1 == st2,
        cells1 == cells2,
    ensures
        frame_text(st1, cells1, p) == frame_text(st2, cells2, p),
        frame_end(st1, cells1) == frame_end(st2, cells2),
{
}

/// A cell written just right of one with the same colors and style flags adds
/// its glyph and nothing else: no position, color or style code.
pub proof fn lemma_run_is_minimal(
    st: EncoderState,
    x: u16,
    y: u16,
    c1: Cell,
    c2: Cell,
    rest: Seq<(u16, u16, Cell)>,
    p: Palette,
)
    requires
        x < u16::MAX,
        c1.fg == c2.fg,
        c1.bg == c2.bg,
        c1.modifier == c2.modifier,
    ensures
        cells_text(st, seq![(x, y, c1), ((x + 1) as u16, y, c2)] + rest, p) == cell_text(st, x, y, c1, p)
            + c2.symbol@ + cells_text(after_cell((x + 1) as u16, y, c2), rest, p),
{
    let all = seq![(x, y, c1), ((x + 1) as u16, y, c2)] + rest;
    let tail = seq![((x + 1) as u16, y, c2)] + rest;
    assert(all.drop_first() =~= tail);
    assert(tail.drop_first() =~= rest);
    let t2 = cell_text(after_cell(x, y, c1), (x + 1) as u16, y, c2, p);
    assert(t2 =~= c2.symbol@);
    assert(all[0] == (x, y, c1));
    assert(tail[0] == ((x + 1) as u16, y, c2));
    assert(cells_text(after_cell(x, y, c1), tail, p) == t2 + cells_text(
        after_cell((x + 1) as u16, y, c2),
        rest,
        p,
    ));
    assert(cells_text(st, all, p) == cell_text(st, x, y, c1, p) + cells_text(
        after_cell(x, y, c1),
        tail,
        p,
    ));
    assert(cells_text(st, all, p) =~= cell_text(st, x, y, c1, p) + c2.symbol@ + cells_text(
        after_cell((x + 1) as u16, y, c2),
        rest,
        p,
    ));
}

/// Once a frame is complete, the next one is encoded exactly as if it were the
/// first: no color, style or position carries over.
pub proof fn lemma_frames_independent(
    st: EncoderState,
    prev: Seq<(u16, u16, Cell)>,
    next: Seq<(u16, u16, Cell)>,
    p: Palette,
)
    ensures
        frame_end(st, prev) == initial_state(),
        frame_text(frame_end(st, prev), next, p) == frame_text(initial_state(), next, p),
{
}

/// Removing bold from a style that also has dim switches both off and dim on
/// again; removing dim from one that also has bold does the same for bold.
pub proof fn lemma_bold_dim_coupling(from: Modifier, to: Modifier)
    requires
        from.bold,
        from.dim,
    ensures
        to == (Modifier { bold: false, ..from }) ==> diff_codes(from, to) == seq![
            StyleCode::NoBoldOrDim,
            StyleCode::Dim,
        ],
        to == (Modifier { dim: false, ..from }) ==> diff_codes(from, to) == seq![
            StyleCode::NoBoldOrDim,
            StyleCode::Bold,
        ],
{
    reveal(diff_codes);
    if to == (Modifier { bold: false, ..from }) {
        assert(diff_codes(from, to) =~= seq![StyleCode::NoBoldOrDim, StyleCode::Dim]);
    }
    if to == (Modifier { dim: false, ..from }) {
        assert(diff_codes(from, to) =~= seq![StyleCode::NoBoldOrDim, StyleCode::Bold]);
    }
}

/// Equal styles need no code at all.
pub proof fn lemma_no_change_no_codes(m: Modifier)
    ensures
        diff_codes(m, m) == Seq::<StyleCode>::empty(),
{
    reveal(diff_codes);
    assert(diff_codes(m, m) =~= Seq::<StyleCode>::empty());
}

} // verus!
