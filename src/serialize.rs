//! CSS text for values, for diagnostics. Numbers are written in decimal,
//! rounded toward zero after the sixth decimal; lengths in pixels.

use vstd::prelude::*;
use vstd::string::*;

use url::Url;

use crate::color::{color_css, color_to_css, Color};
use crate::computed;
use crate::token::ComponentValue;
use crate::image::{CSSImage, Image};
use crate::number::{Au, Number, Ratio};
use crate::specified::{
    Angle, AngleOrCorner, CSSColor, CSSRGBA, ColorStop, HorizontalDirection, Length,
    LengthOrPercentage, LengthOrPercentageOrAuto, LengthOrPercentageOrNone, LinearGradient,
    VerticalDirection,
};

verus! {

/// The text of one decimal digit.
pub open spec fn digit_text(d: int) -> Seq<char> {
    if d == 0 {
        "0"@
    } else if d == 1 {
        "1"@
    } else if d == 2 {
        "2"@
    } else if d == 3 {
        "3"@
    } else if d == 4 {
        "4"@
    } else if d == 5 {
        "5"@
    } else if d == 6 {
        "6"@
    } else if d == 7 {
        "7"@
    } else if d == 8 {
        "8"@
    } else {
        "9"@
    }
}

/// The decimal digits of `n`, without leading zeros.
pub open spec fn digits(n: nat) -> Seq<char>
    decreases n,
{
    if n < 10 {
        digit_text(n as int)
    } else {
        digits(n / 10) + digit_text((n % 10) as int)
    }
}

/// At most `k` decimals of `r / den` (where `r < den`), stopping early when
/// nothing is left.
pub open spec fn fraction_digits(r: nat, den: nat, k: nat) -> Seq<char>
    decreases k,
{
    if k == 0 || r == 0 || den == 0 {
        seq![]
    } else {
        digit_text(((r * 10) / den) as int) + fraction_digits((r * 10) % den, den, (k - 1) as nat)
    }
}

/// `num / den` in decimal, cut after the sixth decimal.
pub open spec fn decimal_text(num: int, den: int) -> Seq<char> {
    let a = if num < 0 {
        -num
    } else {
        num
    };
    let q = (a / den) as nat;
    let r = (a % den) as nat;
    let body = digits(q) + if r == 0 {
        seq![]
    } else {
        "."@ + fraction_digits(r, den as nat, 6)
    };
    if num < 0 {
        "-"@ + body
    } else {
        body
    }
}

fn digit_str(d: u128) -> (r: &'static str)
    requires
        d < 10,
    ensures
        r@ == digit_text(d as int),
{
    if d == 0 {
        "0"
    } else if d == 1 {
        "1"
    } else if d == 2 {
        "2"
    } else if d == 3 {
        "3"
    } else if d == 4 {
        "4"
    } else if d == 5 {
        "5"
    } else if d == 6 {
        "6"
    } else if d == 7 {
        "7"
    } else if d == 8 {
        "8"
    } else {
        "9"
    }
}

fn append_digits(s: &mut String, n: u128)
    ensures
        final(s)@ == old(s)@ + digits(n as nat),
    decreases n,
{
    if n >= 10 {
        append_digits(s, n / 10);
    }
    let ghost mid = s@;
    s.append(digit_str(n % 10));
    if n >= 10 {
        assert(final(s)@ =~= old(s)@ + (digits((n / 10) as nat) + digit_text((n % 10) as int)));
    }
}

/// Appends `num / den` in decimal.
pub fn append_decimal(s: &mut String, num: i128, den: u128)
    requires
        0 < den <= u64::MAX,
        -0x1_0000_0000_0000_0000_0000_0000 < num < 0x1_0000_0000_0000_0000_0000_0000,
    ensures
        final(s)@ == old(s)@ + decimal_text(num as int, den as int),
{
    let a: u128 = if num < 0 {
        (-num) as u128
    } else {
        num as u128
    };
    if num < 0 {
        s.append("-");
    }
    let ghost start = s@;
    append_digits(s, a / den);
    let mut r: u128 = a % den;
    if r != 0 {
        s.append(".");
        let ghost at_point = s@;
        let mut k: u128 = 6;
        while k > 0 && r != 0
            invariant
                0 < den <= u64::MAX,
                r < den,
                k <= 6,
                at_point + fraction_digits((a % den) as nat, den as nat, 6) == s@
                    + fraction_digits(r as nat, den as nat, k as nat),
            decreases k,
        {
            let ghost before = s@;
            let d: u128 = (r * 10) / den;
            assert(d < 10) by (nonlinear_arith)
                requires
                    r < den,
                    d == (r * 10) / (den as int),
                    den > 0,
            ;
            s.append(digit_str(d));
            assert(before + fraction_digits(r as nat, den as nat, k as nat) =~= s@
                + fraction_digits(((r * 10) % (den as int)) as nat, den as nat, (k - 1) as nat));
            r = (r * 10) % den;
            k = k - 1;
        }
        assert(s@ + fraction_digits(r as nat, den as nat, k as nat) =~= s@);
    }
    let ghost q = (a / den) as nat;
    let ghost rr = (a % den) as nat;
    assert(s@ =~= start + (digits(q) + if rr == 0 {
        seq![]
    } else {
        "."@ + fraction_digits(rr, den as nat, 6)
    }));
    assert(final(s)@ =~= old(s)@ + decimal_text(num as int, den as int));
}

/// The value of a number.
pub open spec fn number_text(n: Number) -> Seq<char> {
    decimal_text(n.num as int, n.den as int)
}

/// A length in application units, written in pixels.
pub open spec fn au_text(a: Au) -> Seq<char> {
    decimal_text(a.0 as int, 60) + "px"@
}

/// A ratio written as a percentage.
pub open spec fn percent_text(p: Ratio) -> Seq<char> {
    decimal_text(p.num * 100, p.den as int) + "%"@
}

/// A specified length; a character width has no text.
pub open spec fn length_text(l: Length) -> Seq<char> {
    match l {
        Length::Au(a) => au_text(a),
        Length::Em(v) => number_text(v) + "em"@,
        Length::Ex(v) => number_text(v) + "ex"@,
        Length::Rem(v) => number_text(v) + "rem"@,
        Length::ServoCharacterWidth(_) => seq![],
    }
}

/// A length that has CSS text: not a character width, and with non-zero denominators.
pub open spec fn writable(l: Length) -> bool {
    match l {
        Length::Em(v) => v.wf(),
        Length::Ex(v) => v.wf(),
        Length::Rem(v) => v.wf(),
        Length::Au(_) => true,
        Length::ServoCharacterWidth(_) => false,
    }
}

pub open spec fn lop_text(v: LengthOrPercentage) -> Seq<char> {
    match v {
        LengthOrPercentage::Length(l) => length_text(l),
        LengthOrPercentage::Percentage(p) => percent_text(p),
    }
}

pub open spec fn lop_writable(v: LengthOrPercentage) -> bool {
    match v {
        LengthOrPercentage::Length(l) => writable(l),
        LengthOrPercentage::Percentage(p) => p.wf(),
    }
}

/// An angle: in turns, in radians, or the sum of both.
pub open spec fn angle_text(a: Angle) -> Seq<char> {
    let t = decimal_text(a.turns.num as int, a.turns.den as int) + "turn"@;
    let r = number_text(a.radians) + "rad"@;
    if a.radians.num == 0 {
        t
    } else if a.turns.num == 0 {
        r
    } else {
        "calc("@ + t + " + "@ + r + ")"@
    }
}

pub open spec fn horizontal_text(h: HorizontalDirection) -> Seq<char> {
    match h {
        HorizontalDirection::Left => "left"@,
        HorizontalDirection::Right => "right"@,
    }
}

pub open spec fn vertical_text(v: VerticalDirection) -> Seq<char> {
    match v {
        VerticalDirection::Top => "top"@,
        VerticalDirection::Bottom => "bottom"@,
    }
}

pub open spec fn direction_text(d: AngleOrCorner) -> Seq<char> {
    match d {
        AngleOrCorner::Angle(a) => angle_text(a),
        AngleOrCorner::Corner(h, v) => "to "@ + horizontal_text(h) + " "@ + vertical_text(v),
    }
}

/// A color as written, if it was an identifier; else as cssparser writes it.
pub open spec fn css_color_text(c: CSSColor) -> Seq<char> {
    match c.authored {
        Some(s) => s@,
        None => color_css(c.parsed),
    }
}

pub open spec fn stop_text(s: ColorStop) -> Seq<char> {
    css_color_text(s.color) + match s.position {
        Some(p) => " "@ + lop_text(p),
        None => seq![],
    }
}

pub open spec fn stop_writable(s: ColorStop) -> bool {
    s.position matches Some(p) ==> lop_writable(p)
}

/// Each stop after a comma and a space.
pub open spec fn stops_text(ss: Seq<ColorStop>) -> Seq<char>
    decreases ss.len(),
{
    if ss.len() == 0 {
        seq![]
    } else {
        stops_text(ss.drop_last()) + ", "@ + stop_text(ss.last())
    }
}

/// A gradient's arguments: the direction, then the stops.
pub open spec fn gradient_text(g: LinearGradient) -> Seq<char> {
    direction_text(g.angle_or_corner) + stops_text(g.stops@)
}

fn append_number(s: &mut String, n: Number)
    requires
        n.wf(),
    ensures
        final(s)@ == old(s)@ + number_text(n),
{
    append_decimal(s, n.num as i128, n.den as u128);
}

fn append_au(s: &mut String, a: Au)
    ensures
        final(s)@ == old(s)@ + au_text(a),
{
    append_decimal(s, a.0 as i128, 60);
    s.append("px");
    assert(final(s)@ =~= old(s)@ + au_text(a));
}

fn append_percent(s: &mut String, p: Ratio)
    requires
        p.wf(),
    ensures
        final(s)@ == old(s)@ + percent_text(p),
{
    append_decimal(s, p.num as i128 * 100, p.den as u128);
    s.append("%");
    assert(final(s)@ =~= old(s)@ + percent_text(p));
}

fn append_length(s: &mut String, l: Length)
    requires
        writable(l),
    ensures
        final(s)@ == old(s)@ + length_text(l),
{
    match l {
        Length::Au(a) => append_au(s, a),
        Length::Em(v) => {
            append_number(s, v);
            s.append("em");
        },
        Length::Ex(v) => {
            append_number(s, v);
            s.append("ex");
        },
        Length::Rem(v) => {
            append_number(s, v);
            s.append("rem");
        },
        Length::ServoCharacterWidth(_) => {},
    }
    assert(final(s)@ =~= old(s)@ + length_text(l));
}

fn append_lop(s: &mut String, v: LengthOrPercentage)
    requires
        lop_writable(v),
    ensures
        final(s)@ == old(s)@ + lop_text(v),
{
    match v {
        LengthOrPercentage::Length(l) => append_length(s, l),
        LengthOrPercentage::Percentage(p) => append_percent(s, p),
    }
}

fn append_angle(s: &mut String, a: Angle)
    requires
        a.turns.wf(),
        a.radians.wf(),
    ensures
        final(s)@ == old(s)@ + angle_text(a),
{
    if a.radians.num == 0 {
        append_decimal(s, a.turns.num as i128, a.turns.den as u128);
        s.append("turn");
    } else if a.turns.num == 0 {
        append_number(s, a.radians);
        s.append("rad");
    } else {
        s.append("calc(");
        append_decimal(s, a.turns.num as i128, a.turns.den as u128);
        s.append("turn");
        s.append(" + ");
        append_number(s, a.radians);
        s.append("rad");
        s.append(")");
    }
    assert(final(s)@ =~= old(s)@ + angle_text(a));
}

pub open spec fn direction_writable(d: AngleOrCorner) -> bool {
    d matches AngleOrCorner::Angle(a) ==> a.turns.wf() && a.radians.wf()
}

fn append_direction(s: &mut String, d: AngleOrCorner)
    requires
        direction_writable(d),
    ensures
        final(s)@ == old(s)@ + direction_text(d),
{
    match d {
        AngleOrCorner::Angle(a) => append_angle(s, a),
        AngleOrCorner::Corner(h, v) => {
            s.append("to ");
            match h {
                HorizontalDirection::Left => s.append("left"),
                HorizontalDirection::Right => s.append("right"),
            }
            s.append(" ");
            match v {
                VerticalDirection::Top => s.append("top"),
                VerticalDirection::Bottom => s.append("bottom"),
            }
        },
    }
    assert(final(s)@ =~= old(s)@ + direction_text(d));
}

fn append_color(s: &mut String, c: &CSSColor)
    ensures
        final(s)@ == old(s)@ + css_color_text(*c),
{
    match &c.authored {
        Some(text) => s.append(text.as_str()),
        None => {
            let t = color_to_css(c.parsed);
            s.append(t.as_str());
        },
    }
}

fn append_stop(s: &mut String, stop: &ColorStop)
    requires
        stop_writable(*stop),
    ensures
        final(s)@ == old(s)@ + stop_text(*stop),
{
    append_color(s, &stop.color);
    match stop.position {
        Some(p) => {
            s.append(" ");
            append_lop(s, p);
        },
        None => {},
    }
    assert(final(s)@ =~= old(s)@ + stop_text(*stop));
}

impl LinearGradient {
    /// Every number in the gradient has a non-zero denominator, and no stop
    /// position is a character width.
    pub open spec fn writable(self) -> bool {
        &&& direction_writable(self.angle_or_corner)
        &&& forall|k: int| 0 <= k < self.stops@.len() ==> stop_writable(#[trigger] self.stops@[k])
    }

    /// The arguments as CSS text: the direction, then `, ` and each stop.
    pub fn to_css(&self) -> (r: String)
        requires
            self.writable(),
        ensures
            r@ == gradient_text(*self),
    {
        let mut s = String::from_str("");
        proof {
            reveal_strlit("");
        }
        append_direction(&mut s, self.angle_or_corner);
        assert(s@ =~= direction_text(self.angle_or_corner));
        let ghost head = s@;
        let mut k: usize = 0;
        while k < self.stops.len()
            invariant
                k <= self.stops@.len(),
                self.writable(),
                s@ == head + stops_text(self.stops@.take(k as int)),
            decreases self.stops@.len() - k,
        {
            assert(self.stops@.take(k as int + 1).drop_last() =~= self.stops@.take(k as int));
            assert(self.stops@.take(k as int + 1).last() == self.stops@[k as int]);
            assert(stop_writable(self.stops@[k as int]));
            s.append(", ");
            append_stop(&mut s, &self.stops[k]);
            assert(s@ =~= head + stops_text(self.stops@.take(k as int + 1)));
            k = k + 1;
        }
        assert(self.stops@.take(self.stops@.len() as int) =~= self.stops@);
        s
    }
}

/// Relies on `url::Url::as_str`: the serialization of the URL.
#[verifier::external_body]
fn url_string(u: &Url) -> (r: String) {
    u.as_str().to_string()
}

/// An empty string.
fn empty() -> (r: String)
    ensures
        r@ == Seq::<char>::empty(),
{
    let s = String::from_str("");
    proof {
        reveal_strlit("");
    }
    assert(s@ =~= Seq::<char>::empty());
    s
}

impl Au {
    /// The length in pixels, as `12px`.
    pub fn to_css(&self) -> (r: String)
        ensures
            r@ == au_text(*self),
    {
        let mut s = empty();
        append_au(&mut s, *self);
        assert(s@ =~= au_text(*self));
        s
    }
}

impl Length {
    /// The length as CSS text: pixels, or a number and its unit. A character
    /// width has none and is not admitted.
    pub fn to_css(&self) -> (r: String)
        requires
            writable(*self),
        ensures
            r@ == length_text(*self),
    {
        let mut s = empty();
        append_length(&mut s, *self);
        assert(s@ =~= length_text(*self));
        s
    }
}

impl LengthOrPercentage {
    /// The length, or the percentage as `50%`.
    pub fn to_css(&self) -> (r: String)
        requires
            lop_writable(*self),
        ensures
            r@ == lop_text(*self),
    {
        let mut s = empty();
        append_lop(&mut s, *self);
        assert(s@ =~= lop_text(*self));
        s
    }
}

impl LengthOrPercentageOrAuto {
    /// The length, the percentage, or `auto`.
    pub fn to_css(&self) -> (r: String)
        requires
            match *self {
                LengthOrPercentageOrAuto::Length(l) => writable(l),
                LengthOrPercentageOrAuto::Percentage(p) => p.wf(),
                LengthOrPercentageOrAuto::Auto => true,
            },
        ensures
            r@ == match *self {
                LengthOrPercentageOrAuto::Length(l) => length_text(l),
                LengthOrPercentageOrAuto::Percentage(p) => percent_text(p),
                LengthOrPercentageOrAuto::Auto => "auto"@,
            },
    {
        match *self {
            LengthOrPercentageOrAuto::Length(l) => LengthOrPercentage::Length(l).to_css(),
            LengthOrPercentageOrAuto::Percentage(p) => LengthOrPercentage::Percentage(p).to_css(),
            LengthOrPercentageOrAuto::Auto => String::from_str("auto"),
        }
    }
}

impl LengthOrPercentageOrNone {
    /// The length, the percentage, or `none`.
    pub fn to_css(&self) -> (r: String)
        requires
            match *self {
                LengthOrPercentageOrNone::Length(l) => writable(l),
                LengthOrPercentageOrNone::Percentage(p) => p.wf(),
                LengthOrPercentageOrNone::NoneKeyword => true,
            },
        ensures
            r@ == match *self {
                LengthOrPercentageOrNone::Length(l) => length_text(l),
                LengthOrPercentageOrNone::Percentage(p) => percent_text(p),
                LengthOrPercentageOrNone::NoneKeyword => "none"@,
            },
    {
        match *self {
            LengthOrPercentageOrNone::Length(l) => LengthOrPercentage::Length(l).to_css(),
            LengthOrPercentageOrNone::Percentage(p) => LengthOrPercentage::Percentage(p).to_css(),
            LengthOrPercentageOrNone::NoneKeyword => String::from_str("none"),
        }
    }
}

impl Angle {
    /// The angle in turns, in radians, or as the sum of both.
    pub fn to_css(&self) -> (r: String)
        requires
            self.turns.wf(),
            self.radians.wf(),
        ensures
            r@ == angle_text(*self),
    {
        let mut s = empty();
        append_angle(&mut s, *self);
        assert(s@ =~= angle_text(*self));
        s
    }
}

impl AngleOrCorner {
    /// The angle, or `to` and the two sides.
    pub fn to_css(&self) -> (r: String)
        requires
            direction_writable(*self),
        ensures
            r@ == direction_text(*self),
    {
        let mut s = empty();
        append_direction(&mut s, *self);
        assert(s@ =~= direction_text(*self));
        s
    }
}

impl HorizontalDirection {
    pub fn to_css(&self) -> (r: String)
        ensures
            r@ == horizontal_text(*self),
    {
        match self {
            HorizontalDirection::Left => String::from_str("left"),
            HorizontalDirection::Right => String::from_str("right"),
        }
    }
}

impl VerticalDirection {
    pub fn to_css(&self) -> (r: String)
        ensures
            r@ == vertical_text(*self),
    {
        match self {
            VerticalDirection::Top => String::from_str("top"),
            VerticalDirection::Bottom => String::from_str("bottom"),
        }
    }
}

impl CSSColor {
    /// The identifier as written, or the color as cssparser writes it.
    pub fn to_css(&self) -> (r: String)
        ensures
            r@ == css_color_text(*self),
    {
        let mut s = empty();
        append_color(&mut s, self);
        assert(s@ =~= css_color_text(*self));
        s
    }
}

impl CSSRGBA {
    /// The text as written, if any, or the color as cssparser writes it.
    pub fn to_css(&self) -> (r: String)
        ensures
            r@ == match self.authored {
                Some(t) => t@,
                None => color_css(Color::RGBA(self.parsed)),
            },
    {
        match &self.authored {
            Some(t) => t.clone(),
            None => color_to_css(Color::RGBA(self.parsed)),
        }
    }
}

impl ColorStop {
    /// The color, then the position after a space, if there is one.
    pub fn to_css(&self) -> (r: String)
        requires
            stop_writable(*self),
        ensures
            r@ == stop_text(*self),
    {
        let mut s = empty();
        append_stop(&mut s, self);
        assert(s@ =~= stop_text(*self));
        s
    }
}

/// The text of a URL image, around the URL's own.
pub open spec fn url_text(u: Seq<char>) -> Seq<char> {
    "url(\""@ + u + "\")"@
}

fn append_url(s: &mut String, u: &Url)
    ensures
        exists|t: Seq<char>| final(s)@ == old(s)@ + url_text(t),
{
    s.append("url(\"");
    let t = url_string(u);
    s.append(t.as_str());
    s.append("\")");
    assert(final(s)@ =~= old(s)@ + url_text(t@));
}

impl Image {
    /// `url("...")`, or `linear-gradient(...)` around the gradient's arguments.
    pub fn to_css(&self) -> (r: String)
        requires
            self matches Image::LinearGradient(g) ==> g.writable(),
        ensures
            match *self {
                Image::Url(_) => exists|t: Seq<char>| r@ == url_text(t),
                Image::LinearGradient(g) => r@ == "linear-gradient("@ + gradient_text(g) + ")"@,
            },
    {
        let mut s = empty();
        match self {
            Image::Url(u) => {
                append_url(&mut s, u);
                assert(forall|t: Seq<char>| Seq::<char>::empty() + url_text(t) =~= url_text(t));
            },
            Image::LinearGradient(g) => {
                s.append("linear-gradient(");
                let t = g.to_css();
                s.append(t.as_str());
                s.append(")");
                assert(s@ =~= "linear-gradient("@ + gradient_text(*g) + ")"@);
            },
        }
        s
    }
}

impl CSSImage {
    /// The image, or `none`.
    pub fn to_css(&self) -> (r: String)
        requires
            self.0 matches Some(Image::LinearGradient(g)) ==> g.writable(),
        ensures
            self.0 is None ==> r@ == "none"@,
            self.0 matches Some(Image::LinearGradient(g)) ==> r@ == "linear-gradient("@
                + gradient_text(g) + ")"@,
    {
        match &self.0 {
            Some(image) => image.to_css(),
            None => String::from_str("none"),
        }
    }
}

/// A computed length or percentage.
pub open spec fn computed_lop_text(v: computed::LengthOrPercentage) -> Seq<char> {
    match v {
        computed::LengthOrPercentage::Length(a) => au_text(a),
        computed::LengthOrPercentage::Percentage(p) => percent_text(p),
    }
}

pub open spec fn computed_stop_text(s: computed::ColorStop) -> Seq<char> {
    color_css(s.color) + match s.position {
        Some(p) => " "@ + computed_lop_text(p),
        None => seq![],
    }
}

pub open spec fn computed_stop_writable(s: computed::ColorStop) -> bool {
    s.position matches Some(computed::LengthOrPercentage::Percentage(p)) ==> p.wf()
}

pub open spec fn computed_stops_text(ss: Seq<computed::ColorStop>) -> Seq<char>
    decreases ss.len(),
{
    if ss.len() == 0 {
        seq![]
    } else {
        computed_stops_text(ss.drop_last()) + ", "@ + computed_stop_text(ss.last())
    }
}

pub open spec fn computed_gradient_text(g: computed::LinearGradient) -> Seq<char> {
    direction_text(g.angle_or_corner) + computed_stops_text(g.stops@)
}

fn append_computed_lop(s: &mut String, v: computed::LengthOrPercentage)
    requires
        v matches computed::LengthOrPercentage::Percentage(p) ==> p.wf(),
    ensures
        final(s)@ == old(s)@ + computed_lop_text(v),
{
    match v {
        computed::LengthOrPercentage::Length(a) => append_au(s, a),
        computed::LengthOrPercentage::Percentage(p) => append_percent(s, p),
    }
}

impl computed::LengthOrPercentage {
    /// The length in pixels, or the percentage.
    pub fn to_css(&self) -> (r: String)
        requires
            self matches computed::LengthOrPercentage::Percentage(p) ==> p.wf(),
        ensures
            r@ == computed_lop_text(*self),
    {
        let mut s = empty();
        append_computed_lop(&mut s, *self);
        assert(s@ =~= computed_lop_text(*self));
        s
    }
}

impl computed::LengthOrPercentageOrAuto {
    /// The length in pixels, the percentage, or `auto`.
    pub fn to_css(&self) -> (r: String)
        requires
            self matches computed::LengthOrPercentageOrAuto::Percentage(p) ==> p.wf(),
        ensures
            r@ == match *self {
                computed::LengthOrPercentageOrAuto::Length(a) => au_text(a),
                computed::LengthOrPercentageOrAuto::Percentage(p) => percent_text(p),
                computed::LengthOrPercentageOrAuto::Auto => "auto"@,
            },
    {
        match *self {
            computed::LengthOrPercentageOrAuto::Length(a) => a.to_css(),
            computed::LengthOrPercentageOrAuto::Percentage(p) => computed::LengthOrPercentage::Percentage(
                p,
            ).to_css(),
            computed::LengthOrPercentageOrAuto::Auto => String::from_str("auto"),
        }
    }
}

impl computed::LengthOrPercentageOrNone {
    /// The length in pixels, the percentage, or `none`.
    pub fn to_css(&self) -> (r: String)
        requires
            self matches computed::LengthOrPercentageOrNone::Percentage(p) ==> p.wf(),
        ensures
            r@ == match *self {
                computed::LengthOrPercentageOrNone::Length(a) => au_text(a),
                computed::LengthOrPercentageOrNone::Percentage(p) => percent_text(p),
                computed::LengthOrPercentageOrNone::NoneKeyword => "none"@,
            },
    {
        match *self {
            computed::LengthOrPercentageOrNone::Length(a) => a.to_css(),
            computed::LengthOrPercentageOrNone::Percentage(p) => computed::LengthOrPercentage::Percentage(
                p,
            ).to_css(),
            computed::LengthOrPercentageOrNone::NoneKeyword => String::from_str("none"),
        }
    }
}

fn append_computed_stop(s: &mut String, stop: computed::ColorStop)
    requires
        computed_stop_writable(stop),
    ensures
        final(s)@ == old(s)@ + computed_stop_text(stop),
{
    let t = color_to_css(stop.color);
    s.append(t.as_str());
    match stop.position {
        Some(p) => {
            s.append(" ");
            append_computed_lop(s, p);
        },
        None => {},
    }
    assert(final(s)@ =~= old(s)@ + computed_stop_text(stop));
}

impl computed::ColorStop {
    /// The color, then the position after a space, if there is one.
    pub fn to_css(&self) -> (r: String)
        requires
            computed_stop_writable(*self),
        ensures
            r@ == computed_stop_text(*self),
    {
        let mut s = empty();
        append_computed_stop(&mut s, *self);
        assert(s@ =~= computed_stop_text(*self));
        s
    }
}

impl computed::LinearGradient {
    /// Every number in the gradient has a non-zero denominator.
    pub open spec fn writable(self) -> bool {
        &&& direction_writable(self.angle_or_corner)
        &&& forall|k: int|
            0 <= k < self.stops@.len() ==> computed_stop_writable(#[trigger] self.stops@[k])
    }

    /// The arguments as CSS text: the direction, then `, ` and each stop.
    pub fn to_css(&self) -> (r: String)
        requires
            self.writable(),
        ensures
            r@ == computed_gradient_text(*self),
    {
        let mut s = empty();
        append_direction(&mut s, self.angle_or_corner);
        assert(s@ =~= direction_text(self.angle_or_corner));
        let ghost head = s@;
        let mut k: usize = 0;
        while k < self.stops.len()
            invariant
                k <= self.stops@.len(),
                self.writable(),
                s@ == head + computed_stops_text(self.stops@.take(k as int)),
            decreases self.stops@.len() - k,
        {
            assert(self.stops@.take(k as int + 1).drop_last() =~= self.stops@.take(k as int));
            assert(self.stops@.take(k as int + 1).last() == self.stops@[k as int]);
            assert(computed_stop_writable(self.stops@[k as int]));
            s.append(", ");
            append_computed_stop(&mut s, self.stops[k]);
            assert(s@ =~= head + computed_stops_text(self.stops@.take(k as int + 1)));
            k = k + 1;
        }
        assert(self.stops@.take(self.stops@.len() as int) =~= self.stops@);
        s
    }
}

impl computed::Image {
    /// `url("...")`, or `linear-gradient(...)` around the gradient's arguments.
    pub fn to_css(&self) -> (r: String)
        requires
            self matches computed::Image::LinearGradient(g) ==> g.writable(),
        ensures
            match *self {
                computed::Image::Url(_) => exists|t: Seq<char>| r@ == url_text(t),
                computed::Image::LinearGradient(g) => r@ == "linear-gradient("@
                    + computed_gradient_text(g) + ")"@,
            },
    {
        let mut s = empty();
        match self {
            computed::Image::Url(u) => {
                append_url(&mut s, u);
                assert(forall|t: Seq<char>| Seq::<char>::empty() + url_text(t) =~= url_text(t));
            },
            computed::Image::LinearGradient(g) => {
                s.append("linear-gradient(");
                let t = g.to_css();
                s.append(t.as_str());
                s.append(")");
                assert(s@ =~= "linear-gradient("@ + computed_gradient_text(*g) + ")"@);
            },
        }
        s
    }
}

/// The CSS text of a token inside a function's arguments; none for a nested
/// function, a URL, another kind of token, or a zero denominator.
pub open spec fn arg_text(t: ComponentValue) -> Option<Seq<char>> {
    match t {
        ComponentValue::Number(v) => if v.wf() {
            Some(number_text(v))
        } else {
            None
        },
        ComponentValue::Percentage(v) => if v.wf() {
            Some(number_text(v) + "%"@)
        } else {
            None
        },
        ComponentValue::Dimension(v, u) => if v.wf() {
            Some(number_text(v) + u@)
        } else {
            None
        },
        ComponentValue::Ident(n) => Some(n@),
        ComponentValue::Hash(h) => Some("#"@ + h@),
        ComponentValue::Comma => Some(","@),
        ComponentValue::WhiteSpace => Some(" "@),
        _ => None,
    }
}

/// The arguments' texts, one after another, if each has one.
pub open spec fn args_text(ts: Seq<ComponentValue>) -> Option<Seq<char>>
    decreases ts.len(),
{
    if ts.len() == 0 {
        Some(seq![])
    } else {
        match (args_text(ts.drop_last()), arg_text(ts.last())) {
            (Some(a), Some(b)) => Some(a + b),
            _ => None,
        }
    }
}

/// A function token written back as CSS text: `name(args)`.
pub open spec fn function_text(name: Seq<char>, args: Seq<ComponentValue>) -> Option<Seq<char>> {
    match args_text(args) {
        Some(a) => Some(name + "("@ + a + ")"@),
        None => None,
    }
}

fn append_arg(s: &mut String, t: &ComponentValue) -> (ok: bool)
    ensures
        ok == arg_text(*t) is Some,
        ok ==> final(s)@ == old(s)@ + arg_text(*t)->Some_0,
{
    match t {
        ComponentValue::Number(v) => {
            if v.den == 0 {
                return false;
            }
            append_number(s, *v);
        },
        ComponentValue::Percentage(v) => {
            if v.den == 0 {
                return false;
            }
            append_number(s, *v);
            s.append("%");
        },
        ComponentValue::Dimension(v, u) => {
            if v.den == 0 {
                return false;
            }
            append_number(s, *v);
            s.append(u.as_str());
        },
        ComponentValue::Ident(n) => s.append(n.as_str()),
        ComponentValue::Hash(h) => {
            s.append("#");
            s.append(h.as_str());
        },
        ComponentValue::Comma => s.append(","),
        ComponentValue::WhiteSpace => s.append(" "),
        _ => {
            return false;
        },
    }
    assert(final(s)@ =~= old(s)@ + arg_text(*t)->Some_0);
    true
}

/// Writes a function token back as CSS text, if each argument has a text.
pub fn function_to_css(name: &str, args: &Vec<ComponentValue>) -> (r: Option<String>)
    ensures
        match function_text(name@, args@) {
            Some(t) => r matches Some(s) && s@ == t,
            None => r is None,
        },
{
    let mut s = String::from_str(name);
    s.append("(");
    let ghost head = s@;
    let mut k: usize = 0;
    while k < args.len()
        invariant
            k <= args@.len(),
            args_text(args@.take(k as int)) matches Some(a) && s@ == head + a,
        decreases args@.len() - k,
    {
        assert(args@.take(k as int + 1).drop_last() =~= args@.take(k as int));
        assert(args@.take(k as int + 1).last() == args@[k as int]);
        let ghost before = s@;
        if !append_arg(&mut s, &args[k]) {
            assert(args_text(args@.take(k as int + 1)) is None);
            proof {
                lemma_args_text_none(args@, k as int + 1);
            }
            assert(args@.take(args@.len() as int) =~= args@);
            return None;
        }
        assert(s@ =~= head + args_text(args@.take(k as int + 1))->Some_0);
        k = k + 1;
    }
    assert(args@.take(args@.len() as int) =~= args@);
    s.append(")");
    assert(s@ =~= name@ + "("@ + args_text(args@)->Some_0 + ")"@);
    Some(s)
}

/// Once a prefix has no text, no longer prefix has one.
proof fn lemma_args_text_none(ts: Seq<ComponentValue>, k: int)
    requires
        0 <= k <= ts.len(),
        args_text(ts.take(k)) is None,
    ensures
        args_text(ts) is None,
    decreases ts.len() - k,
{
    if k < ts.len() {
        assert(ts.take(k + 1).drop_last() =~= ts.take(k));
        lemma_args_text_none(ts, k + 1);
    } else {
        assert(ts.take(k) =~= ts);
    }
}

} // verus!
