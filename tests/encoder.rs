use zui_widgets::buffer::Cell;
use zui_widgets::encoder::{
    bg_fragment, encode, fg_fragment, modifier_diff, needs_position_code, EncoderState,
    FrameEncoder, GrayProfile, Palette, StyleCode,
};
use zui_widgets::style::{CellColor, Modifier};

const ESC: &str = "\u{1b}";

fn palette() -> Palette {
    Palette { gray: GrayProfile::AllBlack, truecolor: true }
}

fn bold() -> Modifier {
    Modifier { bold: true, ..Modifier::empty() }
}

fn cell(symbol: &str, fg: CellColor, bg: CellColor, modifier: Modifier) -> Cell {
    Cell { symbol: symbol.to_string(), fg, bg, modifier }
}

fn trailer() -> String {
    format!("{ESC}[0m{ESC}[0m{ESC}[0m")
}

#[test]
fn same_style_run_has_one_set_of_codes() {
    let a = cell("A", CellColor::Red, CellColor::Black, bold());
    let b = cell("B", CellColor::Red, CellColor::Black, bold());
    let out = encode(&[(0, 0, a), (1, 0, b)], palette());
    let expected = format!("{ESC}[1;1H{ESC}[1m{ESC}[31m{ESC}[40mAB{}", trailer());
    assert_eq!(out, expected);
}

#[test]
fn new_row_needs_a_position_code() {
    let a = cell("A", CellColor::Reset, CellColor::Reset, Modifier::empty());
    let b = cell("B", CellColor::Reset, CellColor::Reset, Modifier::empty());
    let out = encode(&[(0, 0, a), (0, 1, b)], palette());
    assert_eq!(out, format!("{ESC}[1;1HA{ESC}[2;1HB{}", trailer()));
}

#[test]
fn row_wrap_still_needs_a_position_code() {
    let a = cell("A", CellColor::Reset, CellColor::Reset, Modifier::empty());
    let b = cell("B", CellColor::Reset, CellColor::Reset, Modifier::empty());
    let out = encode(&[(79, 0, a), (0, 1, b)], palette());
    assert_eq!(out, format!("{ESC}[1;80HA{ESC}[2;1HB{}", trailer()));
}

#[test]
fn gap_in_a_row_needs_a_position_code() {
    let a = cell("A", CellColor::Reset, CellColor::Reset, Modifier::empty());
    let b = cell("B", CellColor::Reset, CellColor::Reset, Modifier::empty());
    let out = encode(&[(2, 3, a), (4, 3, b)], palette());
    assert_eq!(out, format!("{ESC}[4;3HA{ESC}[4;5HB{}", trailer()));
}

#[test]
fn second_frame_starts_from_defaults() {
    let mut enc = FrameEncoder::new(palette());
    let first = enc.draw(&[(0, 0, cell("A", CellColor::Reset, CellColor::Reset, bold()))]);
    assert_eq!(first, format!("{ESC}[1;1H{ESC}[1mA{}", trailer()));
    let second = enc.draw(&[(0, 0, cell("B", CellColor::Reset, CellColor::Reset, Modifier::empty()))]);
    assert_eq!(second, format!("{ESC}[1;1HB{}", trailer()));
    assert!(!second.contains(&format!("{ESC}[22m")));
    assert_eq!(enc.state, EncoderState::new());
}

#[test]
fn frames_are_independent() {
    let next = [(3, 2, cell("Z", CellColor::Green, CellColor::Blue, bold()))];
    let mut enc = FrameEncoder::new(palette());
    enc.draw(&[(0, 0, cell("A", CellColor::Red, CellColor::White, Modifier { dim: true, ..Modifier::empty() }))]);
    let after = enc.draw(&next);
    assert_eq!(after, encode(&next, palette()));
}

#[test]
fn encoding_is_deterministic() {
    let cells = [
        (0, 0, cell("x", CellColor::Rgb(1, 2, 3), CellColor::Yellow, bold())),
        (1, 0, cell("y", CellColor::Cyan, CellColor::Yellow, Modifier::empty())),
    ];
    assert_eq!(encode(&cells, palette()), encode(&cells, palette()));
}

#[test]
fn empty_frame_is_only_the_reset() {
    assert_eq!(encode(&[], palette()), trailer());
}

#[test]
fn indexed_color_falls_back_to_default() {
    assert_eq!(fg_fragment(CellColor::Indexed(200), palette()), fg_fragment(CellColor::Reset, palette()));
    assert_eq!(fg_fragment(CellColor::Indexed(200), palette()), format!("{ESC}[0m"));
    let out = encode(&[(0, 0, cell("A", CellColor::Indexed(200), CellColor::Reset, Modifier::empty()))], palette());
    assert_eq!(out, format!("{ESC}[1;1H{ESC}[0mA{}", trailer()));
}

#[test]
fn color_fragments() {
    assert_eq!(fg_fragment(CellColor::Red, palette()), format!("{ESC}[31m"));
    assert_eq!(bg_fragment(CellColor::Red, palette()), format!("{ESC}[41m"));
    assert_eq!(fg_fragment(CellColor::Magenta, palette()), format!("{ESC}[35m"));
    assert_eq!(fg_fragment(CellColor::LightGreen, palette()), format!("{ESC}[32;1m"));
    assert_eq!(bg_fragment(CellColor::White, palette()), format!("{ESC}[47m"));
    assert_eq!(fg_fragment(CellColor::Rgb(1, 2, 3), palette()), format!("{ESC}[38;2;1;2;3"));
    assert_eq!(bg_fragment(CellColor::Rgb(10, 20, 30), palette()), format!("{ESC}[48;2;10;20;30"));
}

#[test]
fn gray_profiles() {
    let other = Palette { gray: GrayProfile::WhiteAndBrightBlack, truecolor: true };
    assert_eq!(fg_fragment(CellColor::Gray, palette()), format!("{ESC}[30m"));
    assert_eq!(fg_fragment(CellColor::DarkGray, palette()), format!("{ESC}[30m"));
    assert_eq!(fg_fragment(CellColor::Gray, other), format!("{ESC}[37m"));
    assert_eq!(fg_fragment(CellColor::DarkGray, other), format!("{ESC}[30;1m"));
}

#[test]
fn rgb_without_truecolor_falls_back() {
    let basic = Palette { gray: GrayProfile::AllBlack, truecolor: false };
    assert_eq!(bg_fragment(CellColor::Rgb(9, 9, 9), basic), format!("{ESC}[0m"));
}

#[test]
fn removing_bold_keeps_dim() {
    let from = Modifier { bold: true, dim: true, ..Modifier::empty() };
    let to = Modifier { dim: true, ..Modifier::empty() };
    assert_eq!(modifier_diff(from, to), vec![StyleCode::NoBoldOrDim, StyleCode::Dim]);
}

#[test]
fn removing_dim_keeps_bold() {
    let from = Modifier { bold: true, dim: true, ..Modifier::empty() };
    assert_eq!(modifier_diff(from, bold()), vec![StyleCode::NoBoldOrDim, StyleCode::Bold]);
}

#[test]
fn equal_styles_give_no_codes() {
    let m = Modifier { italic: true, slow_blink: true, ..Modifier::empty() };
    assert!(modifier_diff(m, m).is_empty());
}

#[test]
fn blink_flags_share_one_code() {
    let both = Modifier { slow_blink: true, rapid_blink: true, ..Modifier::empty() };
    assert_eq!(modifier_diff(both, Modifier::empty()), vec![StyleCode::NoBlink]);
    assert_eq!(modifier_diff(Modifier::empty(), both), vec![StyleCode::Blink]);
}

#[test]
fn removals_come_before_additions_in_order() {
    let from = Modifier { reversed: true, italic: true, underlined: true, crossed_out: true, ..Modifier::empty() };
    let to = Modifier { bold: true, dim: true, rapid_blink: true, ..Modifier::empty() };
    assert_eq!(
        modifier_diff(from, to),
        vec![
            StyleCode::NoReverse,
            StyleCode::NoItalic,
            StyleCode::NoUnderline,
            StyleCode::NoStrike,
            StyleCode::Bold,
            StyleCode::Dim,
            StyleCode::Blink,
        ]
    );
    assert_eq!(
        modifier_diff(to, from),
        vec![
            StyleCode::NoBoldOrDim,
            StyleCode::NoBoldOrDim,
            StyleCode::NoBlink,
            StyleCode::Reverse,
            StyleCode::Italic,
            StyleCode::Underline,
            StyleCode::Strike,
        ]
    );
}

#[test]
fn style_code_texts() {
    assert_eq!(StyleCode::Bold.text(), format!("{ESC}[1m"));
    assert_eq!(StyleCode::NoBoldOrDim.text(), format!("{ESC}[22m"));
    assert_eq!(StyleCode::Strike.text(), format!("{ESC}[9m"));
    assert_eq!(StyleCode::NoBlink.text(), format!("{ESC}[25m"));
    assert_eq!(StyleCode::Reset.text(), format!("{ESC}[0m"));
}

#[test]
fn style_change_between_cells() {
    let from = Modifier { bold: true, dim: true, ..Modifier::empty() };
    let a = cell("a", CellColor::Reset, CellColor::Reset, from);
    let b = cell("b", CellColor::Reset, CellColor::Reset, Modifier { dim: true, ..Modifier::empty() });
    let out = encode(&[(0, 0, a), (1, 0, b)], palette());
    assert_eq!(out, format!("{ESC}[1;1H{ESC}[1m{ESC}[2ma{ESC}[22m{ESC}[2mb{}", trailer()));
}

#[test]
fn largest_position() {
    let a = cell("A", CellColor::Reset, CellColor::Reset, Modifier::empty());
    let out = encode(&[(u16::MAX, u16::MAX, a)], palette());
    assert_eq!(out, format!("{ESC}[65536;65536HA{}", trailer()));
}

#[test]
fn cursor_rule() {
    assert!(needs_position_code(None, 0, 0));
    assert!(!needs_position_code(Some((4, 7)), 5, 7));
    assert!(needs_position_code(Some((4, 7)), 5, 8));
    assert!(needs_position_code(Some((4, 7)), 4, 7));
    assert!(needs_position_code(Some((u16::MAX, 0)), 0, 0));
}

#[test]
fn encoder_state_tracks_last_cell() {
    let mut st = EncoderState::new();
    let mut out = String::new();
    let c = cell("q", CellColor::Blue, CellColor::Reset, bold());
    st.encode_cell(3, 4, &c, palette(), &mut out);
    assert_eq!(out, format!("{ESC}[5;4H{ESC}[1m{ESC}[34mq"));
    assert_eq!(st.last_position, Some((3, 4)));
    assert_eq!(st.fg, CellColor::Blue);
    assert_eq!(st.modifier, bold());
    st.finish(&mut out);
    assert_eq!(st, EncoderState::new());
}
