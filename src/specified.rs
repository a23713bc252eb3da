//! Specified values: what the parsers make of the tokens, before any context
//! is known.

use vstd::prelude::*;

use crate::color::{
    color_from_hash, color_from_keyword, color_from_text, hash_color, keyword_color, text_color, Color,
};
use crate::serialize::{function_text, function_to_css};
use crate::number::{div_trunc_saturate, trunc_sat, Au, Number, Ratio};
use crate::token::{ascii_fold, eq_ignore_ascii_case, eq_ignore_case, ComponentValue};

pub use crate::gradient::{
    AngleOrCorner, ColorStop, HorizontalDirection, LinearGradient, VerticalDirection,
};
pub use crate::image::{CSSImage, Image};

verus! {

/// `Some(x)` as `Ok(x)`, `None` as the payload-free parse failure.
pub open spec fn to_result<T>(o: Option<T>) -> Result<T, ()> {
    match o {
        Some(x) => Ok(x),
        None => Err(()),
    }
}

/// A color as parsed, with the identifier it was written as, if it was one.
#[derive(Clone, Debug)]
pub struct CSSColor {
    pub parsed: Color,
    pub authored: Option<String>,
}

/// What `CSSColor::parse` makes of a token.
pub open spec fn color_spec(t: ComponentValue) -> Option<CSSColor> {
    match t {
        ComponentValue::Ident(s) => match keyword_color(s@) {
            Some(c) => Some(CSSColor { parsed: c, authored: Some(s) }),
            None => None,
        },
        ComponentValue::Hash(s) => match hash_color(s@) {
            Some(c) => Some(CSSColor { parsed: c, authored: None }),
            None => None,
        },
        ComponentValue::Function(name, args) => match function_text(name@, args@) {
            Some(t) => match text_color(t) {
                Some(c) => Some(CSSColor { parsed: c, authored: None }),
                None => None,
            },
            None => None,
        },
        _ => None,
    }
}

impl CSSColor {
    /// Parses a color keyword, a `#` color, or a color function such as
    /// `rgb(...)`, which is written back as text for cssparser. The identifier
    /// is kept as written; the other forms keep no text.
    pub fn parse(component_value: &ComponentValue) -> (r: Result<CSSColor, ()>)
        ensures
            r == to_result(color_spec(*component_value)),
    {
        match component_value {
            ComponentValue::Ident(s) => match color_from_keyword(s.as_str()) {
                Some(c) => Ok(CSSColor { parsed: c, authored: Some(s.clone()) }),
                None => Err(()),
            },
            ComponentValue::Hash(s) => match color_from_hash(s.as_str()) {
                Some(c) => Ok(CSSColor { parsed: c, authored: None }),
                None => Err(()),
            },
            ComponentValue::Function(name, args) => match function_to_css(name.as_str(), args) {
                Some(text) => match color_from_text(text.as_str()) {
                    Some(c) => Ok(CSSColor { parsed: c, authored: None }),
                    None => Err(()),
                },
                None => Err(()),
            },
            _ => Err(()),
        }
    }
}

/// Two colors are equal when they resolve to the same color, however written.
impl PartialEq for CSSColor {
    fn eq(&self, o: &CSSColor) -> (r: bool) {
        self.parsed == o.parsed
    }
}

impl vstd::std_specs::cmp::PartialEqSpecImpl for CSSColor {
    open spec fn obeys_eq_spec() -> bool {
        true
    }

    open spec fn eq_spec(&self, o: &CSSColor) -> bool {
        self.parsed == o.parsed
    }
}

/// A color for properties that hold channels only.
#[derive(Clone, Debug)]
pub struct CSSRGBA {
    pub parsed: crate::color::RGBA,
    pub authored: Option<String>,
}

/// A specified length.
#[derive(Clone, Copy, Debug, PartialEq)]
pub enum Length {
    /// Application units.
    Au(Au),
    Em(Number),
    Ex(Number),
    Rem(Number),
    /// The "character width" of legacy HTML attributes. No CSS text produces it,
    /// and it has no CSS text.
    ServoCharacterWidth(i32),
}

/// Application units per unit, as a fraction, for the absolute units.
pub open spec fn au_per_unit(unit: Seq<char>) -> Option<(int, int)> {
    if eq_ignore_case(unit, "px"@) {
        Some((60, 1))
    } else if eq_ignore_case(unit, "in"@) {
        Some((5760, 1))
    } else if eq_ignore_case(unit, "cm"@) {
        Some((576000, 254))
    } else if eq_ignore_case(unit, "mm"@) {
        Some((57600, 254))
    } else if eq_ignore_case(unit, "pt"@) {
        Some((80, 1))
    } else if eq_ignore_case(unit, "pc"@) {
        Some((960, 1))
    } else {
        None
    }
}

/// The length `value` in `unit`; absolute units are rounded toward zero.
pub open spec fn dimension_spec(value: Number, unit: Seq<char>) -> Option<Length> {
    match au_per_unit(unit) {
        Some((k, d)) => Some(Length::Au(Au(trunc_sat(value.num * k, value.den * d) as i32))),
        None => if eq_ignore_case(unit, "em"@) {
            Some(Length::Em(value))
        } else if eq_ignore_case(unit, "ex"@) {
            Some(Length::Ex(value))
        } else if eq_ignore_case(unit, "rem"@) {
            Some(Length::Rem(value))
        } else {
            None
        },
    }
}

/// The zero length.
pub open spec fn zero_length() -> Length {
    Length::Au(Au(0))
}

/// The sign guard: with `negative_ok` unset, negative values are refused.
pub open spec fn sign_ok(value: Number, negative_ok: bool) -> bool {
    negative_ok || value.num >= 0
}

/// What the length parser makes of a token.
pub open spec fn length_spec(t: ComponentValue, negative_ok: bool) -> Option<Length> {
    match t {
        ComponentValue::Dimension(v, u) => if sign_ok(v, negative_ok) {
            dimension_spec(v, u@)
        } else {
            None
        },
        ComponentValue::Number(v) => if v.num == 0 {
            Some(zero_length())
        } else {
            None
        },
        _ => None,
    }
}

/// `value * k / d` in application units, rounded toward zero.
fn absolute(value: Number, k: i64, d: u64) -> (r: Length)
    requires
        value.wf(),
        0 < k <= 576000,
        0 < d <= 254,
    ensures
        r == Length::Au(Au(trunc_sat(value.num * k, value.den * d) as i32)),
{
    proof {
        assert(-0x10_0000_0000_0000_0000_0000 <= value.num * k <= 0x10_0000_0000_0000_0000_0000)
            by (nonlinear_arith)
            requires
                i64::MIN <= value.num <= i64::MAX,
                0 < k <= 576000,
        ;
        assert(0 < value.den * d <= 0x10_0000_0000_0000) by (nonlinear_arith)
            requires
                0 < value.den <= u32::MAX,
                0 < d <= 254,
        ;
    }
    let x: i128 = value.num as i128 * k as i128;
    let y: i128 = value.den as i128 * d as i128;
    Length::Au(Au(div_trunc_saturate(x, y)))
}

impl Length {
    fn parse_internal(input: &ComponentValue, negative_ok: bool) -> (r: Result<Length, ()>)
        requires
            input.wf(),
        ensures
            r == to_result(length_spec(*input, negative_ok)),
    {
        match input {
            ComponentValue::Dimension(value, unit) => {
                if negative_ok || value.num >= 0 {
                    Length::parse_dimension(*value, unit.as_str())
                } else {
                    Err(())
                }
            },
            ComponentValue::Number(value) => {
                if value.num == 0 {
                    Ok(Length::Au(Au(0)))
                } else {
                    Err(())
                }
            },
            _ => Err(()),
        }
    }

    /// Parses a length of either sign, or a bare zero.
    pub fn parse(input: &ComponentValue) -> (r: Result<Length, ()>)
        requires
            input.wf(),
        ensures
            r == to_result(length_spec(*input, true)),
    {
        Length::parse_internal(input, true)
    }

    /// Parses a length that is not negative, or a bare zero.
    pub fn parse_non_negative(input: &ComponentValue) -> (r: Result<Length, ()>)
        requires
            input.wf(),
        ensures
            r == to_result(length_spec(*input, false)),
    {
        Length::parse_internal(input, false)
    }

    /// The length `value` in `unit`, the unit matched without regard to ASCII case.
    pub fn parse_dimension(value: Number, unit: &str) -> (r: Result<Length, ()>)
        requires
            value.wf(),
        ensures
            r == to_result(dimension_spec(value, unit@)),
    {
        if eq_ignore_ascii_case(unit, "px") {
            Ok(absolute(value, 60, 1))
        } else if eq_ignore_ascii_case(unit, "in") {
            Ok(absolute(value, 5760, 1))
        } else if eq_ignore_ascii_case(unit, "cm") {
            Ok(absolute(value, 576000, 254))
        } else if eq_ignore_ascii_case(unit, "mm") {
            Ok(absolute(value, 57600, 254))
        } else if eq_ignore_ascii_case(unit, "pt") {
            Ok(absolute(value, 80, 1))
        } else if eq_ignore_ascii_case(unit, "pc") {
            Ok(absolute(value, 960, 1))
        } else if eq_ignore_ascii_case(unit, "em") {
            Ok(Length::Em(value))
        } else if eq_ignore_ascii_case(unit, "ex") {
            Ok(Length::Ex(value))
        } else if eq_ignore_ascii_case(unit, "rem") {
            Ok(Length::Rem(value))
        } else {
            Err(())
        }
    }

    /// `px_value` CSS pixels, rounded toward zero to application units.
    pub fn from_px(px_value: Number) -> (r: Length)
        requires
            px_value.wf(),
        ensures
            r == Length::Au(Au(trunc_sat(px_value.num * 60, px_value.den as int) as i32)),
    {
        absolute(px_value, 60, 1)
    }
}

/// A percentage as a ratio: `50%` is one half.
pub open spec fn percent_ratio(value: Number) -> Ratio {
    Ratio { num: value.num, den: (value.den * 100) as u64 }
}

fn percent(value: Number) -> (r: Ratio)
    requires
        value.wf(),
    ensures
        r == percent_ratio(value),
{
    Ratio { num: value.num, den: value.den as u64 * 100 }
}

/// A length or a percentage.
#[derive(Clone, Copy, Debug, PartialEq)]
pub enum LengthOrPercentage {
    Length(Length),
    /// A ratio: 0 is 0%, 1 is 100%.
    Percentage(Ratio),
}

/// What the length-or-percentage parser makes of a token.
pub open spec fn lop_spec(t: ComponentValue, negative_ok: bool) -> Option<LengthOrPercentage> {
    match t {
        ComponentValue::Dimension(v, u) => if sign_ok(v, negative_ok) {
            match dimension_spec(v, u@) {
                Some(l) => Some(LengthOrPercentage::Length(l)),
                None => None,
            }
        } else {
            None
        },
        ComponentValue::Percentage(v) => if sign_ok(v, negative_ok) {
            Some(LengthOrPercentage::Percentage(percent_ratio(v)))
        } else {
            None
        },
        ComponentValue::Number(v) => if v.num == 0 {
            Some(LengthOrPercentage::Length(zero_length()))
        } else {
            None
        },
        _ => None,
    }
}

impl LengthOrPercentage {
    fn parse_internal(input: &ComponentValue, negative_ok: bool) -> (r: Result<
        LengthOrPercentage,
        (),
    >)
        requires
            input.wf(),
        ensures
            r == to_result(lop_spec(*input, negative_ok)),
    {
        match input {
            ComponentValue::Dimension(value, unit) => {
                if negative_ok || value.num >= 0 {
                    match Length::parse_dimension(*value, unit.as_str()) {
                        Ok(l) => Ok(LengthOrPercentage::Length(l)),
                        Err(()) => Err(()),
                    }
                } else {
                    Err(())
                }
            },
            ComponentValue::Percentage(value) => {
                if negative_ok || value.num >= 0 {
                    Ok(LengthOrPercentage::Percentage(percent(*value)))
                } else {
                    Err(())
                }
            },
            ComponentValue::Number(value) => {
                if value.num == 0 {
                    Ok(LengthOrPercentage::Length(Length::Au(Au(0))))
                } else {
                    Err(())
                }
            },
            _ => Err(()),
        }
    }

    /// Parses a length or percentage of either sign, or a bare zero.
    pub fn parse(input: &ComponentValue) -> (r: Result<LengthOrPercentage, ()>)
        requires
            input.wf(),
        ensures
            r == to_result(lop_spec(*input, true)),
    {
        LengthOrPercentage::parse_internal(input, true)
    }

    /// Parses a length or percentage that is not negative, or a bare zero.
    pub fn parse_non_negative(input: &ComponentValue) -> (r: Result<LengthOrPercentage, ()>)
        requires
            input.wf(),
        ensures
            r == to_result(lop_spec(*input, false)),
    {
        LengthOrPercentage::parse_internal(input, false)
    }
}

/// A length, a percentage, or `auto`.
#[derive(Clone, Copy, Debug, PartialEq)]
pub enum LengthOrPercentageOrAuto {
    Length(Length),
    Percentage(Ratio),
    Auto,
}

/// What the parser of length, percentage or `auto` makes of a token.
pub open spec fn lopa_spec(t: ComponentValue, negative_ok: bool) -> Option<
    LengthOrPercentageOrAuto,
> {
    match t {
        ComponentValue::Ident(s) => if eq_ignore_case(s@, "auto"@) {
            Some(LengthOrPercentageOrAuto::Auto)
        } else {
            None
        },
        _ => match lop_spec(t, negative_ok) {
            Some(LengthOrPercentage::Length(l)) => Some(LengthOrPercentageOrAuto::Length(l)),
            Some(LengthOrPercentage::Percentage(p)) => Some(
                LengthOrPercentageOrAuto::Percentage(p),
            ),
            None => None,
        },
    }
}

impl LengthOrPercentageOrAuto {
    fn parse_internal(input: &ComponentValue, negative_ok: bool) -> (r: Result<
        LengthOrPercentageOrAuto,
        (),
    >)
        requires
            input.wf(),
        ensures
            r == to_result(lopa_spec(*input, negative_ok)),
    {
        match input {
            ComponentValue::Ident(value) => {
                if eq_ignore_ascii_case(value.as_str(), "auto") {
                    Ok(LengthOrPercentageOrAuto::Auto)
                } else {
                    Err(())
                }
            },
            _ => match LengthOrPercentage::parse_internal(input, negative_ok) {
                Ok(LengthOrPercentage::Length(l)) => Ok(LengthOrPercentageOrAuto::Length(l)),
                Ok(LengthOrPercentage::Percentage(p)) => Ok(
                    LengthOrPercentageOrAuto::Percentage(p),
                ),
                Err(()) => Err(()),
            },
        }
    }

    /// Parses a length or percentage of either sign, a bare zero, or `auto`.
    pub fn parse(input: &ComponentValue) -> (r: Result<LengthOrPercentageOrAuto, ()>)
        requires
            input.wf(),
        ensures
            r == to_result(lopa_spec(*input, true)),
    {
        LengthOrPercentageOrAuto::parse_internal(input, true)
    }

    /// Parses a length or percentage that is not negative, a bare zero, or `auto`.
    pub fn parse_non_negative(input: &ComponentValue) -> (r: Result<LengthOrPercentageOrAuto, ()>)
        requires
            input.wf(),
        ensures
            r == to_result(lopa_spec(*input, false)),
    {
        LengthOrPercentageOrAuto::parse_internal(input, false)
    }
}

/// A length, a percentage, or `none`.
#[derive(Clone, Copy, Debug, PartialEq)]
pub enum LengthOrPercentageOrNone {
    Length(Length),
    Percentage(Ratio),
    /// The keyword `none`.
    NoneKeyword,
}

/// What the parser of length, percentage or `none` makes of a token.
pub open spec fn lopn_spec(t: ComponentValue, negative_ok: bool) -> Option<
    LengthOrPercentageOrNone,
> {
    match t {
        ComponentValue::Ident(s) => if eq_ignore_case(s@, "none"@) {
            Some(LengthOrPercentageOrNone::NoneKeyword)
        } else {
            None
        },
        _ => match lop_spec(t, negative_ok) {
            Some(LengthOrPercentage::Length(l)) => Some(LengthOrPercentageOrNone::Length(l)),
            Some(LengthOrPercentage::Percentage(p)) => Some(
                LengthOrPercentageOrNone::Percentage(p),
            ),
            None => None,
        },
    }
}

impl LengthOrPercentageOrNone {
    fn parse_internal(input: &ComponentValue, negative_ok: bool) -> (r: Result<
        LengthOrPercentageOrNone,
        (),
    >)
        requires
            input.wf(),
        ensures
            r == to_result(lopn_spec(*input, negative_ok)),
    {
        match input {
            ComponentValue::Ident(value) => {
                if eq_ignore_ascii_case(value.as_str(), "none") {
                    Ok(LengthOrPercentageOrNone::NoneKeyword)
                } else {
                    Err(())
                }
            },
            _ => match LengthOrPercentage::parse_internal(input, negative_ok) {
                Ok(LengthOrPercentage::Length(l)) => Ok(LengthOrPercentageOrNone::Length(l)),
                Ok(LengthOrPercentage::Percentage(p)) => Ok(
                    LengthOrPercentageOrNone::Percentage(p),
                ),
                Err(()) => Err(()),
            },
        }
    }

    /// Parses a length or percentage of either sign, a bare zero, or `none`.
    pub fn parse(input: &ComponentValue) -> (r: Result<LengthOrPercentageOrNone, ()>)
        requires
            input.wf(),
        ensures
            r == to_result(lopn_spec(*input, true)),
    {
        LengthOrPercentageOrNone::parse_internal(input, true)
    }

    /// Parses a length or percentage that is not negative, a bare zero, or `none`.
    pub fn parse_non_negative(input: &ComponentValue) -> (r: Result<LengthOrPercentageOrNone, ()>)
        requires
            input.wf(),
        ensures
            r == to_result(lopn_spec(*input, false)),
    {
        LengthOrPercentageOrNone::parse_internal(input, false)
    }
}

/// One coordinate of a background position.
#[derive(Clone, Copy, Debug, PartialEq)]
pub enum PositionComponent {
    Length(Length),
    Percentage(Ratio),
    Center,
    Left,
    Right,
    Top,
    Bottom,
}

/// What the position-component parser makes of a token.
pub open spec fn position_spec(t: ComponentValue) -> Option<PositionComponent> {
    match t {
        ComponentValue::Dimension(v, u) => match dimension_spec(v, u@) {
            Some(l) => Some(PositionComponent::Length(l)),
            None => None,
        },
        ComponentValue::Percentage(v) => Some(PositionComponent::Percentage(percent_ratio(v))),
        ComponentValue::Number(v) => if v.num == 0 {
            Some(PositionComponent::Length(zero_length()))
        } else {
            None
        },
        ComponentValue::Ident(s) => if eq_ignore_case(s@, "center"@) {
            Some(PositionComponent::Center)
        } else if eq_ignore_case(s@, "left"@) {
            Some(PositionComponent::Left)
        } else if eq_ignore_case(s@, "right"@) {
            Some(PositionComponent::Right)
        } else if eq_ignore_case(s@, "top"@) {
            Some(PositionComponent::Top)
        } else if eq_ignore_case(s@, "bottom"@) {
            Some(PositionComponent::Bottom)
        } else {
            None
        },
        _ => None,
    }
}

/// The ratio `num / den`.
pub open spec fn ratio(num: int, den: int) -> Ratio {
    Ratio { num: num as i64, den: den as u64 }
}

impl PositionComponent {
    /// Parses a length of either sign, a percentage, a bare zero, or one of
    /// the keywords `center`, `left`, `right`, `top`, `bottom`.
    pub fn parse(input: &ComponentValue) -> (r: Result<PositionComponent, ()>)
        requires
            input.wf(),
        ensures
            r == to_result(position_spec(*input)),
    {
        match input {
            ComponentValue::Dimension(value, unit) => match Length::parse_dimension(
                *value,
                unit.as_str(),
            ) {
                Ok(l) => Ok(PositionComponent::Length(l)),
                Err(()) => Err(()),
            },
            ComponentValue::Percentage(value) => Ok(PositionComponent::Percentage(percent(*value))),
            ComponentValue::Number(value) => {
                if value.num == 0 {
                    Ok(PositionComponent::Length(Length::Au(Au(0))))
                } else {
                    Err(())
                }
            },
            ComponentValue::Ident(value) => {
                let value = value.as_str();
                if eq_ignore_ascii_case(value, "center") {
                    Ok(PositionComponent::Center)
                } else if eq_ignore_ascii_case(value, "left") {
                    Ok(PositionComponent::Left)
                } else if eq_ignore_ascii_case(value, "right") {
                    Ok(PositionComponent::Right)
                } else if eq_ignore_ascii_case(value, "top") {
                    Ok(PositionComponent::Top)
                } else if eq_ignore_ascii_case(value, "bottom") {
                    Ok(PositionComponent::Bottom)
                } else {
                    Err(())
                }
            },
            _ => Err(()),
        }
    }

    /// Keywords become percentages: `center` one half, `left` and `top` zero,
    /// `right` and `bottom` one.
    pub fn to_length_or_percentage(self) -> (r: LengthOrPercentage)
        ensures
            r == match self {
                PositionComponent::Length(x) => LengthOrPercentage::Length(x),
                PositionComponent::Percentage(x) => LengthOrPercentage::Percentage(x),
                PositionComponent::Center => LengthOrPercentage::Percentage(ratio(1, 2)),
                PositionComponent::Left | PositionComponent::Top => LengthOrPercentage::Percentage(
                    ratio(0, 1),
                ),
                PositionComponent::Right | PositionComponent::Bottom => LengthOrPercentage::Percentage(
                    ratio(1, 1),
                ),
            },
    {
        match self {
            PositionComponent::Length(x) => LengthOrPercentage::Length(x),
            PositionComponent::Percentage(x) => LengthOrPercentage::Percentage(x),
            PositionComponent::Center => LengthOrPercentage::Percentage(Ratio { num: 1, den: 2 }),
            PositionComponent::Left | PositionComponent::Top => LengthOrPercentage::Percentage(
                Ratio { num: 0, den: 1 },
            ),
            PositionComponent::Right | PositionComponent::Bottom => LengthOrPercentage::Percentage(
                Ratio { num: 1, den: 1 },
            ),
        }
    }
}

/// An angle of `2π · turns + radians` radians. Held this way, the angles of
/// the units `deg`, `grad` and `turn` are exact.
#[derive(Clone, Copy, Debug, PartialEq)]
pub struct Angle {
    pub turns: Ratio,
    pub radians: Number,
}

/// An angle of `num / den` turns.
pub open spec fn turns(num: int, den: int) -> Angle {
    Angle { turns: ratio(num, den), radians: Number { num: 0, den: 1 } }
}

/// The angle `value` in `unit`, the unit matched without regard to ASCII case.
pub open spec fn angle_spec(value: Number, unit: Seq<char>) -> Option<Angle> {
    if eq_ignore_case(unit, "deg"@) {
        Some(turns(value.num as int, value.den * 360))
    } else if eq_ignore_case(unit, "grad"@) {
        Some(turns(value.num as int, value.den * 400))
    } else if eq_ignore_case(unit, "rad"@) {
        Some(Angle { turns: ratio(0, 1), radians: value })
    } else if eq_ignore_case(unit, "turn"@) {
        Some(turns(value.num as int, value.den as int))
    } else {
        None
    }
}

impl Angle {
    /// An angle of `num / den` turns.
    pub fn from_turns(num: i64, den: u64) -> (r: Angle)
        requires
            den > 0,
        ensures
            r == turns(num as int, den as int),
    {
        Angle { turns: Ratio { num, den }, radians: Number { num: 0, den: 1 } }
    }

    /// Parses an angle in `deg`, `grad`, `rad` or `turn`.
    pub fn parse_dimension(value: Number, unit: &str) -> (r: Result<Angle, ()>)
        requires
            value.wf(),
        ensures
            r == to_result(angle_spec(value, unit@)),
    {
        if eq_ignore_ascii_case(unit, "deg") {
            Ok(Angle::from_turns(value.num, value.den as u64 * 360))
        } else if eq_ignore_ascii_case(unit, "grad") {
            Ok(Angle::from_turns(value.num, value.den as u64 * 400))
        } else if eq_ignore_ascii_case(unit, "rad") {
            Ok(Angle { turns: Ratio { num: 0, den: 1 }, radians: value })
        } else if eq_ignore_ascii_case(unit, "turn") {
            Ok(Angle::from_turns(value.num, value.den as u64))
        } else {
            Err(())
        }
    }
}

/// One inch is ninety-six pixels: `value` inches and `96 · value` pixels give
/// the same length.
pub proof fn lemma_inch_is_96_px(value: Number)
    requires
        value.wf(),
        i64::MIN <= value.num * 96 <= i64::MAX,
    ensures
        dimension_spec(value, "in"@) == dimension_spec(
            Number { num: (value.num * 96) as i64, den: value.den },
            "px"@,
        ),
{
    reveal_strlit("in");
    reveal_strlit("px");
    assert(ascii_fold("in"@[0]) != ascii_fold("px"@[0]));
    assert(!eq_ignore_case("in"@, "px"@));
    assert(value.num * 5760 == (value.num * 96) * 60);
}

/// One centimetre is an inch divided by 2.54: `value` centimetres and
/// `value / 2.54` inches give the same length, with no further rounding.
pub proof fn lemma_cm_is_inch_over_2_54(value: Number)
    requires
        value.wf(),
        i64::MIN <= value.num * 100 <= i64::MAX,
        value.den * 254 <= u32::MAX,
    ensures
        dimension_spec(value, "cm"@) == dimension_spec(
            Number { num: (value.num * 100) as i64, den: (value.den * 254) as u32 },
            "in"@,
        ),
{
    reveal_strlit("in");
    reveal_strlit("px");
    reveal_strlit("cm");
    assert(ascii_fold("cm"@[0]) != ascii_fold("px"@[0]));
    assert(!eq_ignore_case("cm"@, "px"@));
    assert(ascii_fold("cm"@[0]) != ascii_fold("in"@[0]));
    assert(!eq_ignore_case("cm"@, "in"@));
    assert(ascii_fold("in"@[0]) != ascii_fold("px"@[0]));
    assert(!eq_ignore_case("in"@, "px"@));
    assert(value.num * 576000 == (value.num * 100) * 5760);
    assert(value.den * 254 == (value.den * 254) * 1);
}

/// An absolute length rounds toward zero: where the exact value `x / y`
/// application units is in range, the result `a` has `|a · y| <= |x|` and
/// `|x| < (|a| + 1) · y`, on the same side of zero as `x`.
pub proof fn lemma_absolute_rounds_toward_zero(value: Number, unit: Seq<char>)
    requires
        value.wf(),
        au_per_unit(unit) is Some,
        i32::MIN <= crate::number::trunc_div(
            value.num * au_per_unit(unit)->Some_0.0,
            value.den * au_per_unit(unit)->Some_0.1,
        ) <= i32::MAX,
    ensures
        ({
            let (k, d) = au_per_unit(unit)->Some_0;
            let x = value.num * k;
            let y = value.den * d;
            dimension_spec(value, unit) matches Some(Length::Au(Au(a))) && (x >= 0 ==> 0 <= a * y
                <= x < (a + 1) * y) && (x < 0 ==> (a - 1) * y < x <= a * y <= 0)
        }),
{
    let (k, d) = au_per_unit(unit)->Some_0;
    let x = value.num * k;
    let y = value.den * d;
    assert(y > 0) by (nonlinear_arith)
        requires
            value.den > 0,
            d > 0,
            y == value.den * d,
    ;
    let q = crate::number::trunc_div(x, y);
    if x >= 0 {
        assert(0 <= q * y <= x < (q + 1) * y) by (nonlinear_arith)
            requires
                x >= 0,
                y > 0,
                q == x / y,
        ;
    } else {
        let m = -x;
        assert(0 <= (m / y) * y <= m < (m / y + 1) * y) by (nonlinear_arith)
            requires
                m > 0,
                y > 0,
        ;
        assert((q - 1) * y < x <= q * y <= 0) by (nonlinear_arith)
            requires
                q == -(m / y),
                x == -m,
                0 <= (m / y) * y <= m < (m / y + 1) * y,
        ;
    }
}

/// The sign guard: whatever the restricted parser accepts, the unrestricted
/// one accepts as the same length; a negative dimension is refused only by
/// the restricted parser; a bare zero is accepted by both.
pub proof fn lemma_sign_guard(t: ComponentValue)
    requires
        t.wf(),
    ensures
        length_spec(t, false) is Some ==> length_spec(t, true) == length_spec(t, false),
        lop_spec(t, false) is Some ==> lop_spec(t, true) == lop_spec(t, false),
        match t {
            ComponentValue::Dimension(v, u) => v.num < 0 ==> length_spec(t, false) is None
                && length_spec(t, true) == dimension_spec(v, u@),
            ComponentValue::Number(v) => v.num == 0 ==> length_spec(t, false) == Some(zero_length())
                && length_spec(t, true) == Some(zero_length()),
            _ => true,
        },
{
}

} // verus!
