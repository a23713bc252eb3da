//! Computed values: specified values resolved against the style context of
//! one element, with every length in application units.

use vstd::prelude::*;

use crate::color::Color;
use crate::number::{div_trunc_saturate, saturate, trunc_sat, Au, Number, Ratio};
use crate::specified;

pub use crate::gradient::{AngleOrCorner, HorizontalDirection, VerticalDirection};
pub use crate::specified::Angle;

verus! {

/// A resolved color.
pub type CSSColor = Color;

/// What the resolver reads of an element's style: font sizes, and flags that
/// other properties depend on. It is not changed here.
#[derive(Clone, Copy, Debug)]
pub struct Context {
    pub inherited_font_size: Au,
    pub font_size: Au,
    pub root_font_size: Au,
    pub positioned: bool,
    pub floated: bool,
    pub border_top_present: bool,
    pub border_right_present: bool,
    pub border_bottom_present: bool,
    pub border_left_present: bool,
    pub is_root_element: bool,
}

/// A color drops the text it was written as.
pub fn compute_CSSColor(value: specified::CSSColor, _context: &Context) -> (r: CSSColor)
    ensures
        r == value.parsed,
{
    value.parsed
}

/// `font_size · v`, rounded toward zero.
pub open spec fn em_spec(font_size: Au, v: Number) -> int {
    trunc_sat(font_size.0 * v.num, v.den as int)
}

/// `font_size · v / 2`, rounded toward zero: the x-height taken as half the em.
pub open spec fn ex_spec(font_size: Au, v: Number) -> int {
    trunc_sat(font_size.0 * v.num, 2 * v.den)
}

/// The width of `n` characters: `n - 1` average advances of half the font
/// size, each rounded toward zero, plus one maximum advance of the whole font
/// size. Sums beyond `i32` are clamped.
pub open spec fn character_width_spec(font_size: Au, n: i32) -> int {
    let average = trunc_div_half(font_size.0 as int);
    saturate(saturate(average * (n - 1)) + font_size.0)
}

/// Half of `x`, rounded toward zero.
pub open spec fn trunc_div_half(x: int) -> int {
    crate::number::trunc_div(x, 2)
}

/// The length in application units, with `font_size` for `em`, `ex` and
/// character widths and `root_font_size` for `rem`.
pub open spec fn length_spec(value: specified::Length, font_size: Au, root_font_size: Au) -> int {
    match value {
        specified::Length::Au(a) => a.0 as int,
        specified::Length::Em(v) => em_spec(font_size, v),
        specified::Length::Ex(v) => ex_spec(font_size, v),
        specified::Length::Rem(v) => em_spec(root_font_size, v),
        specified::Length::ServoCharacterWidth(n) => character_width_spec(font_size, n),
    }
}

/// Every number that the length holds has a non-zero denominator.
pub open spec fn length_wf(value: specified::Length) -> bool {
    match value {
        specified::Length::Em(v) => v.wf(),
        specified::Length::Ex(v) => v.wf(),
        specified::Length::Rem(v) => v.wf(),
        _ => true,
    }
}

/// Resolves a length against the context's font size and root font size.
pub fn compute_Au(value: specified::Length, context: &Context) -> (r: Au)
    requires
        length_wf(value),
    ensures
        r.0 == length_spec(value, context.font_size, context.root_font_size),
{
    compute_Au_with_font_size(value, context.font_size, context.root_font_size)
}

/// Resolves a length against explicit font sizes. For `font-size` itself the
/// reference is the parent's font size, since the element's own is what is
/// being computed.
pub fn compute_Au_with_font_size(value: specified::Length, reference_font_size: Au, root_font_size: Au) -> (r: Au)
    requires
        length_wf(value),
    ensures
        r.0 == length_spec(value, reference_font_size, root_font_size),
{
    match value {
        specified::Length::Au(value) => value,
        specified::Length::Em(value) => reference_font_size.scale_by(value),
        specified::Length::Ex(value) => {
            proof {
                assert(-0x4000_0000_0000_0000_0000_0000 <= reference_font_size.0 * value.num
                    <= 0x4000_0000_0000_0000_0000_0000) by (nonlinear_arith)
                    requires
                        i32::MIN <= reference_font_size.0 <= i32::MAX,
                        i64::MIN <= value.num <= i64::MAX,
                ;
            }
            let x: i128 = reference_font_size.0 as i128 * value.num as i128;
            Au(div_trunc_saturate(x, 2 * value.den as i128))
        },
        specified::Length::Rem(value) => root_font_size.scale_by(value),
        specified::Length::ServoCharacterWidth(value) => {
            let average_advance = reference_font_size.scale_by(Number { num: 1, den: 2 });
            let max_advance = reference_font_size;
            proof {
                assert(average_advance.0 == trunc_div_half(reference_font_size.0 as int));
                assert(-0x8000_0000_0000_0000 <= average_advance.0 * (value - 1)
                    <= 0x8000_0000_0000_0000) by (nonlinear_arith)
                    requires
                        i32::MIN <= average_advance.0 <= i32::MAX,
                        i32::MIN <= value <= i32::MAX,
                ;
            }
            let scaled: i128 = average_advance.0 as i128 * (value as i128 - 1);
            let chars = div_trunc_saturate(scaled, 1);
            let sum: i128 = chars as i128 + max_advance.0 as i128;
            Au(div_trunc_saturate(sum, 1))
        },
    }
}

/// A length in application units, or a percentage.
#[derive(Clone, Copy, Debug, PartialEq)]
pub enum LengthOrPercentage {
    Length(Au),
    Percentage(Ratio),
}

/// Every number that the value holds has a non-zero denominator.
pub open spec fn lop_wf(value: specified::LengthOrPercentage) -> bool {
    match value {
        specified::LengthOrPercentage::Length(l) => length_wf(l),
        _ => true,
    }
}

/// The length resolved, the percentage kept.
pub open spec fn lop_spec(value: specified::LengthOrPercentage, context: Context) -> LengthOrPercentage {
    match value {
        specified::LengthOrPercentage::Length(l) => LengthOrPercentage::Length(
            Au(length_spec(l, context.font_size, context.root_font_size) as i32),
        ),
        specified::LengthOrPercentage::Percentage(p) => LengthOrPercentage::Percentage(p),
    }
}

/// Resolves the length, if it is one; a percentage stays as it is.
pub fn compute_LengthOrPercentage(value: specified::LengthOrPercentage, context: &Context) -> (r: LengthOrPercentage)
    requires
        lop_wf(value),
    ensures
        r == lop_spec(value, *context),
{
    match value {
        specified::LengthOrPercentage::Length(value) => LengthOrPercentage::Length(
            compute_Au(value, context),
        ),
        specified::LengthOrPercentage::Percentage(value) => LengthOrPercentage::Percentage(value),
    }
}

/// A length in application units, a percentage, or `auto`.
#[derive(Clone, Copy, Debug, PartialEq)]
pub enum LengthOrPercentageOrAuto {
    Length(Au),
    Percentage(Ratio),
    Auto,
}

/// Resolves the length, if it is one; a percentage and `auto` stay as they are.
pub fn compute_LengthOrPercentageOrAuto(value: specified::LengthOrPercentageOrAuto, context: &Context) -> (r: LengthOrPercentageOrAuto)
    requires
        value matches specified::LengthOrPercentageOrAuto::Length(l) ==> length_wf(l),
    ensures
        r == match value {
            specified::LengthOrPercentageOrAuto::Length(l) => LengthOrPercentageOrAuto::Length(
                Au(length_spec(l, context.font_size, context.root_font_size) as i32),
            ),
            specified::LengthOrPercentageOrAuto::Percentage(p) => LengthOrPercentageOrAuto::Percentage(p),
            specified::LengthOrPercentageOrAuto::Auto => LengthOrPercentageOrAuto::Auto,
        },
{
    match value {
        specified::LengthOrPercentageOrAuto::Length(value) => LengthOrPercentageOrAuto::Length(
            compute_Au(value, context),
        ),
        specified::LengthOrPercentageOrAuto::Percentage(value) => LengthOrPercentageOrAuto::Percentage(
            value,
        ),
        specified::LengthOrPercentageOrAuto::Auto => LengthOrPercentageOrAuto::Auto,
    }
}

/// A length in application units, a percentage, or `none`.
#[derive(Clone, Copy, Debug, PartialEq)]
pub enum LengthOrPercentageOrNone {
    Length(Au),
    Percentage(Ratio),
    /// The keyword `none`.
    NoneKeyword,
}

/// Resolves the length, if it is one; a percentage and `none` stay as they are.
pub fn compute_LengthOrPercentageOrNone(value: specified::LengthOrPercentageOrNone, context: &Context) -> (r: LengthOrPercentageOrNone)
    requires
        value matches specified::LengthOrPercentageOrNone::Length(l) ==> length_wf(l),
    ensures
        r == match value {
            specified::LengthOrPercentageOrNone::Length(l) => LengthOrPercentageOrNone::Length(
                Au(length_spec(l, context.font_size, context.root_font_size) as i32),
            ),
            specified::LengthOrPercentageOrNone::Percentage(p) => LengthOrPercentageOrNone::Percentage(p),
            specified::LengthOrPercentageOrNone::NoneKeyword => LengthOrPercentageOrNone::NoneKeyword,
        },
{
    match value {
        specified::LengthOrPercentageOrNone::Length(value) => LengthOrPercentageOrNone::Length(
            compute_Au(value, context),
        ),
        specified::LengthOrPercentageOrNone::Percentage(value) => LengthOrPercentageOrNone::Percentage(
            value,
        ),
        specified::LengthOrPercentageOrNone::NoneKeyword => LengthOrPercentageOrNone::NoneKeyword,
    }
}

/// A computed image.
pub enum Image {
    Url(url::Url),
    LinearGradient(LinearGradient),
}

/// A color stop with its color resolved and its position, if any, in
/// application units or as a percentage.
#[derive(Clone, Copy, Debug, PartialEq)]
pub struct ColorStop {
    pub color: CSSColor,
    pub position: Option<LengthOrPercentage>,
}

/// A computed linear gradient.
#[derive(Clone, Debug, PartialEq)]
pub struct LinearGradient {
    pub angle_or_corner: AngleOrCorner,
    pub stops: Vec<ColorStop>,
}

/// The stop resolved: its color without the authored text, its position
/// through `compute_LengthOrPercentage`.
pub open spec fn stop_spec(s: specified::ColorStop, context: Context) -> ColorStop {
    ColorStop {
        color: s.color.parsed,
        position: match s.position {
            Some(p) => Some(lop_spec(p, context)),
            None => None,
        },
    }
}

/// The position of the stop, if it has one, is well formed.
pub open spec fn stop_wf(s: specified::ColorStop) -> bool {
    s.position matches Some(p) ==> lop_wf(p)
}

impl specified::LinearGradient {
    /// Every stop position has non-zero denominators.
    pub open spec fn wf(self) -> bool {
        forall|k: int| 0 <= k < self.stops@.len() ==> stop_wf(#[trigger] self.stops@[k])
    }
}

impl LinearGradient {
    /// `c` is `g` resolved in `context`: the same direction, and each stop resolved.
    pub open spec fn computed_from(c: LinearGradient, g: specified::LinearGradient, context: Context) -> bool {
        &&& c.angle_or_corner == g.angle_or_corner
        &&& c.stops@.len() == g.stops@.len()
        &&& forall|k: int| 0 <= k < g.stops@.len() ==> c.stops@[k] == stop_spec(#[trigger] g.stops@[k], context)
    }

    /// Resolves each stop; the direction stays as it is.
    pub fn compute(value: specified::LinearGradient, context: &Context) -> (r: LinearGradient)
        requires
            value.wf(),
        ensures
            LinearGradient::computed_from(r, value, *context),
    {
        let mut stops: Vec<ColorStop> = Vec::new();
        let mut k: usize = 0;
        while k < value.stops.len()
            invariant
                k <= value.stops@.len(),
                value.wf(),
                stops@.len() == k,
                forall|j: int| 0 <= j < k ==> stops@[j] == stop_spec(#[trigger] value.stops@[j], *context),
            decreases value.stops@.len() - k,
        {
            let stop = &value.stops[k];
            assert(stop_wf(value.stops@[k as int]));
            let position = match stop.position {
                None => None,
                Some(p) => Some(compute_LengthOrPercentage(p, context)),
            };
            stops.push(ColorStop { color: stop.color.parsed, position });
            k = k + 1;
        }
        LinearGradient { angle_or_corner: value.angle_or_corner, stops }
    }
}

/// The width of characters: one character is exactly the font size; three
/// are twice the font size when the font size is even (the half advance is
/// rounded toward zero, so an odd size loses the rounding twice).
pub proof fn lemma_character_width(font_size: Au)
    ensures
        character_width_spec(font_size, 1) == font_size.0,
        font_size.0 % 2 == 0 && i32::MIN <= 2 * font_size.0 <= i32::MAX ==> character_width_spec(
            font_size,
            3,
        ) == 2 * font_size.0,
{
    let f = font_size.0 as int;
    if f % 2 == 0 {
        assert(trunc_div_half(f) * 2 == f);
    }
}

/// An `em` length of an integer `k` is `k` times the font size, where that fits.
pub proof fn lemma_em_integer(font_size: Au, k: i64)
    requires
        i32::MIN <= font_size.0 * k <= i32::MAX,
    ensures
        em_spec(font_size, Number { num: k, den: 1 }) == font_size.0 * k,
{
}

} // verus!
