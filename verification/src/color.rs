//! Color handling: parsing CSS color strings and packing 8-bit channels into
//! a single 32-bit ARGB word.

use vstd::prelude::*;

verus! {

/// ARGB word from 8-bit channels: alpha in the top byte, then red, green, blue.
pub open spec fn pack_argb_spec(r: u8, g: u8, b: u8, a: u8) -> u32 {
    ((a as u32) << 24) | ((r as u32) << 16) | ((g as u32) << 8) | (b as u32)
}

/// Packs 8-bit red, green, blue, alpha into one ARGB word,
/// `(alpha << 24) | (red << 16) | (green << 8) | blue`.
pub fn pack_argb(r: u8, g: u8, b: u8, a: u8) -> (argb: u32)
    ensures
        argb == pack_argb_spec(r, g, b, a),
{
    ((a as u32) << 24) | ((r as u32) << 16) | ((g as u32) << 8) | (b as u32)
}

/// The RGBA channels that a CSS color string denotes, or `None` where the
/// string is not a CSS color: what `csscolorparser::parse` followed by
/// `Color::to_rgba8` computes, a function of the string alone.
pub uninterp spec fn css_rgba_of(s: Seq<char>) -> Option<(u8, u8, u8, u8)>;

/// Relies on `csscolorparser::parse` and `csscolorparser::Color::to_rgba8`:
/// both compute from the text of the string alone, so the channels returned
/// are a fixed function of it.
#[verifier::external_body]
fn parse_css_rgba(s: &str) -> (rgba: Option<(u8, u8, u8, u8)>)
    ensures
        rgba == css_rgba_of(s@),
{
    match csscolorparser::parse(s) {
        Ok(c) => {
            let [r, g, b, a] = c.to_rgba8();
            Some((r, g, b, a))
        }
        Err(_) => None,
    }
}

/// Parses a CSS color string (a name such as `orangered`, `#rrggbb` hex,
/// `rgb(..)` and the other CSS forms) and packs the channels as ARGB.
/// Returns `None` exactly when the string is not a CSS color.
pub fn parse_color_argb(s: &str) -> (argb: Option<u32>)
    ensures
        match css_rgba_of(s@) {
            Some(rgba) => argb == Some(pack_argb_spec(rgba.0, rgba.1, rgba.2, rgba.3)),
            None => argb is None,
        },
{
    match parse_css_rgba(s) {
        Some((r, g, b, a)) => Some(pack_argb(r, g, b, a)),
        None => None,
    }
}

} // verus!
