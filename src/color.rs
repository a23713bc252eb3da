//! Resolved colors, and the calls into cssparser that produce them.

use cssparser::ToCss;
use vstd::prelude::*;

verus! {

/// A color with one byte per channel.
#[derive(Clone, Copy, Debug, PartialEq, Eq, Structural)]
pub struct RGBA {
    pub red: u8,
    pub green: u8,
    pub blue: u8,
    pub alpha: u8,
}

/// A resolved color: the `currentcolor` keyword, or channels.
#[derive(Clone, Copy, Debug, PartialEq, Eq, Structural)]
pub enum Color {
    CurrentColor,
    RGBA(RGBA),
}

/// What cssparser makes of a color keyword (`red`, `currentcolor`).
pub uninterp spec fn keyword_color(name: Seq<char>) -> Option<Color>;

/// What cssparser makes of the text of a `#` token, without the `#`.
pub uninterp spec fn hash_color(digits: Seq<char>) -> Option<Color>;

/// Relies on `cssparser::parse_color_keyword`: the named color, or none for an
/// unknown name. The result depends on the name alone.
#[verifier::external_body]
pub(crate) fn color_from_keyword(name: &str) -> (r: Option<Color>)
    ensures
        r == keyword_color(name@),
{
    match cssparser::parse_color_keyword(name) {
        Ok(cssparser::Color::CurrentColor) => Some(Color::CurrentColor),
        Ok(cssparser::Color::RGBA(c)) => Some(
            Color::RGBA(RGBA { red: c.red, green: c.green, blue: c.blue, alpha: c.alpha }),
        ),
        Err(()) => None,
    }
}

/// Relies on `cssparser::Color::parse_hash`: three, four, six or eight hex
/// digits give channels; anything else gives none. The result depends on the
/// digits alone.
#[verifier::external_body]
pub(crate) fn color_from_hash(digits: &str) -> (r: Option<Color>)
    ensures
        r == hash_color(digits@),
{
    match cssparser::Color::parse_hash(digits.as_bytes()) {
        Ok(cssparser::Color::CurrentColor) => Some(Color::CurrentColor),
        Ok(cssparser::Color::RGBA(c)) => Some(
            Color::RGBA(RGBA { red: c.red, green: c.green, blue: c.blue, alpha: c.alpha }),
        ),
        Err(()) => None,
    }
}

/// What cssparser makes of CSS text that holds one color function.
pub uninterp spec fn text_color(css: Seq<char>) -> Option<Color>;

/// Relies on `cssparser::Color::parse`, run on a parser over `css`: the color
/// that the text starts with, or none. The result depends on the text alone.
#[verifier::external_body]
pub(crate) fn color_from_text(css: &str) -> (r: Option<Color>)
    ensures
        r == text_color(css@),
{
    let mut input = cssparser::ParserInput::new(css);
    let mut parser = cssparser::Parser::new(&mut input);
    match cssparser::Color::parse(&mut parser) {
        Ok(cssparser::Color::CurrentColor) => Some(Color::CurrentColor),
        Ok(cssparser::Color::RGBA(c)) => Some(
            Color::RGBA(RGBA { red: c.red, green: c.green, blue: c.blue, alpha: c.alpha }),
        ),
        Err(_) => None,
    }
}

/// What cssparser writes for a color.
pub uninterp spec fn color_css(c: Color) -> Seq<char>;

/// Relies on cssparser's `ToCss` for `cssparser::Color`: the CSS text of the
/// color, which depends on the color alone.
#[verifier::external_body]
pub(crate) fn color_to_css(c: Color) -> (r: String)
    ensures
        r@ == color_css(c),
{
    let c = match c {
        Color::CurrentColor => cssparser::Color::CurrentColor,
        Color::RGBA(x) => cssparser::Color::RGBA(cssparser::RGBA::new(x.red, x.green, x.blue, x.alpha)),
    };
    c.to_css_string()
}

} // verus!
