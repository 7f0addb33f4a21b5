//! The escape texts that libzui produces for colors and styles.
use vstd::prelude::*;

verus! {

// libzui's color and style enums, declared with their variants visible so that
// verified code can build them and contracts can name them.
#[verifier::external_type_specification]
pub struct ExZuiColor(libzui::color::Color);

#[verifier::external_type_specification]
pub struct ExZuiStyle(libzui::style::Style);

/// What libzui writes to set the foreground to a color.
pub uninterp spec fn fg_text(c: libzui::color::Color) -> Seq<char>;

/// What libzui writes to set the background to a color.
pub uninterp spec fn bg_text(c: libzui::color::Color) -> Seq<char>;

/// What libzui writes to switch a text style on or off.
pub uninterp spec fn style_text(s: libzui::style::Style) -> Seq<char>;

/// Relies on libzui::color::fg: the foreground escape text, which depends on the
/// color alone.
#[verifier::external_body]
pub(crate) fn fg_code(c: libzui::color::Color) -> (r: String)
    ensures
        r@ == fg_text(c),
{
    libzui::color::fg(c).value
}

/// Relies on libzui::color::bg: the background escape text, which depends on the
/// color alone.
#[verifier::external_body]
pub(crate) fn bg_code(c: libzui::color::Color) -> (r: String)
    ensures
        r@ == bg_text(c),
{
    libzui::color::bg(c).value
}

/// Relies on libzui::style::set: the escape text of a style, which depends on the
/// style alone.
#[verifier::external_body]
pub(crate) fn style_code(s: libzui::style::Style) -> (r: String)
    ensures
        r@ == style_text(s),
{
    libzui::style::set(s).value
}

} // verus!
