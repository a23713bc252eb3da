use style_values::color::{Color, RGBA};
use style_values::computed::{
    self, compute_Au, compute_Au_with_font_size, compute_CSSColor, compute_LengthOrPercentage,
    compute_LengthOrPercentageOrAuto, compute_LengthOrPercentageOrNone, Context,
};
use style_values::specified::{
    Angle, AngleOrCorner, CSSColor, HorizontalDirection, Image, Length, LengthOrPercentage,
    LengthOrPercentageOrAuto, LengthOrPercentageOrNone, LinearGradient, PositionComponent,
    VerticalDirection,
};
use style_values::token::ComponentValue;
use style_values::{parse_url, Au, Number, Ratio};

fn num(n: i64) -> Number {
    Number::new(n, 1)
}

fn dim(n: i64, d: u32, unit: &str) -> ComponentValue {
    ComponentValue::Dimension(Number::new(n, d), unit.to_string())
}

fn ident(s: &str) -> ComponentValue {
    ComponentValue::Ident(s.to_string())
}

fn context(font_size: i32, root_font_size: i32) -> Context {
    Context {
        inherited_font_size: Au(font_size),
        font_size: Au(font_size),
        root_font_size: Au(root_font_size),
        positioned: false,
        floated: false,
        border_top_present: false,
        border_right_present: false,
        border_bottom_present: false,
        border_left_present: false,
        is_root_element: false,
    }
}

fn red() -> Color {
    Color::RGBA(RGBA { red: 255, green: 0, blue: 0, alpha: 255 })
}

fn blue() -> Color {
    Color::RGBA(RGBA { red: 0, green: 0, blue: 255, alpha: 255 })
}

fn gradient(tokens: Vec<ComponentValue>) -> Result<LinearGradient, ()> {
    LinearGradient::parse_function(&tokens)
}

#[test]
fn inch_equals_96_px() {
    assert_eq!(Length::parse_dimension(num(1), "in"), Length::parse_dimension(num(96), "px"));
    assert_eq!(Length::parse_dimension(num(1), "in"), Ok(Length::Au(Au(5760))));
}

#[test]
fn cm_equals_inch_over_2_54() {
    let cm = Length::parse_dimension(num(1), "cm");
    let inch = Length::parse_dimension(Number::new(100, 254), "in");
    assert_eq!(cm, inch);
    assert_eq!(cm, Ok(Length::Au(Au(2267))));
}

#[test]
fn absolute_unit_ratios() {
    assert_eq!(Length::parse_dimension(num(1), "mm"), Ok(Length::Au(Au(226))));
    assert_eq!(Length::parse_dimension(num(1), "pt"), Ok(Length::Au(Au(80))));
    assert_eq!(Length::parse_dimension(num(1), "pc"), Ok(Length::Au(Au(960))));
    assert_eq!(Length::parse_dimension(num(2), "PX"), Ok(Length::Au(Au(120))));
}

#[test]
fn relative_units_keep_their_number() {
    assert_eq!(Length::parse_dimension(Number::new(3, 2), "em"), Ok(Length::Em(Number::new(3, 2))));
    assert_eq!(Length::parse_dimension(num(2), "Ex"), Ok(Length::Ex(num(2))));
    assert_eq!(Length::parse_dimension(num(2), "rem"), Ok(Length::Rem(num(2))));
}

#[test]
fn unknown_unit_is_refused() {
    assert_eq!(Length::parse_dimension(num(1), "furlong"), Err(()));
    assert_eq!(Length::parse_dimension(num(1), ""), Err(()));
}

#[test]
fn truncation_toward_zero() {
    // 1/120 px is half an application unit.
    assert_eq!(Length::from_px(Number::new(1, 120)), Length::Au(Au(0)));
    assert_eq!(Length::from_px(Number::new(-1, 120)), Length::Au(Au(0)));
    // 0.99 px is 59.4 units.
    assert_eq!(Length::from_px(Number::new(99, 100)), Length::Au(Au(59)));
    assert_eq!(Length::from_px(Number::new(-99, 100)), Length::Au(Au(-59)));
    // 1 cm is 2267.71... units.
    assert_eq!(Length::parse_dimension(num(-1), "cm"), Ok(Length::Au(Au(-2267))));
}

#[test]
fn huge_lengths_are_clamped() {
    assert_eq!(Length::from_px(num(i64::MAX)), Length::Au(Au(i32::MAX)));
    assert_eq!(Length::from_px(num(i64::MIN)), Length::Au(Au(i32::MIN)));
}

#[test]
fn angle_units() {
    let half_turn = Angle::from_turns(1, 2);
    assert_eq!(Angle::parse_dimension(num(180), "deg"), Ok(half_turn));
    assert_eq!(Angle::parse_dimension(Number::new(1, 2), "turn"), Ok(half_turn));
    assert_eq!(Angle::parse_dimension(num(200), "GRAD"), Ok(half_turn));
    let rad = Angle::parse_dimension(num(3), "rad").unwrap();
    assert_eq!(rad.radians, num(3));
    assert_eq!(rad.turns, Ratio::new(0, 1));
    assert_eq!(Angle::parse_dimension(num(1), "px"), Err(()));
}

#[test]
fn direction_to_top() {
    let g = gradient(vec![
        ident("to"),
        ComponentValue::WhiteSpace,
        ident("top"),
        ComponentValue::Comma,
        ident("red"),
        ComponentValue::Comma,
        ident("blue"),
    ])
    .unwrap();
    assert_eq!(g.angle_or_corner, AngleOrCorner::Angle(Angle::from_turns(0, 1)));
}

#[test]
fn direction_to_right() {
    let g = gradient(vec![ident("to"), ident("right"), ComponentValue::Comma, ident("red"),
        ComponentValue::Comma, ident("blue")])
    .unwrap();
    assert_eq!(g.angle_or_corner, AngleOrCorner::Angle(Angle::from_turns(1, 4)));
}

#[test]
fn direction_to_left_and_bottom() {
    let g = gradient(vec![ident("to"), ident("left"), ComponentValue::Comma, ident("red"),
        ComponentValue::Comma, ident("blue")])
    .unwrap();
    assert_eq!(g.angle_or_corner, AngleOrCorner::Angle(Angle::from_turns(3, 4)));
    let g = gradient(vec![ident("TO"), ident("Bottom"), ComponentValue::Comma, ident("red"),
        ComponentValue::Comma, ident("blue")])
    .unwrap();
    assert_eq!(g.angle_or_corner, AngleOrCorner::Angle(Angle::from_turns(1, 2)));
}

#[test]
fn direction_to_top_left_corner() {
    let g = gradient(vec![ident("to"), ident("top"), ident("left"), ComponentValue::Comma,
        ident("red"), ComponentValue::Comma, ident("blue")])
    .unwrap();
    assert_eq!(
        g.angle_or_corner,
        AngleOrCorner::Corner(HorizontalDirection::Left, VerticalDirection::Top)
    );
}

#[test]
fn direction_repeated_axis_fails() {
    let r = gradient(vec![ident("to"), ident("top"), ident("bottom"), ComponentValue::Comma,
        ident("red"), ComponentValue::Comma, ident("blue")]);
    assert!(r.is_err());
}

#[test]
fn direction_without_sides_fails() {
    let r = gradient(vec![ident("to"), ComponentValue::Comma, ident("red"),
        ComponentValue::Comma, ident("blue")]);
    assert!(r.is_err());
    let r = gradient(vec![ident("to"), ident("middle"), ComponentValue::Comma, ident("red"),
        ComponentValue::Comma, ident("blue")]);
    assert!(r.is_err());
}

#[test]
fn angle_direction_needs_comma() {
    let g = gradient(vec![dim(90, 1, "deg"), ComponentValue::Comma, ident("red"),
        ComponentValue::Comma, ident("blue")])
    .unwrap();
    assert_eq!(g.angle_or_corner, AngleOrCorner::Angle(Angle::from_turns(1, 4)));
    let r = gradient(vec![dim(90, 1, "deg"), ident("red"), ComponentValue::Comma, ident("blue")]);
    assert!(r.is_err());
    let r = gradient(vec![dim(90, 1, "deg")]);
    assert!(r.is_err());
}

#[test]
fn single_stop_fails() {
    assert!(gradient(vec![ident("red")]).is_err());
    assert!(gradient(vec![]).is_err());
}

#[test]
fn two_stops_default_direction() {
    let g = gradient(vec![ident("red"), ComponentValue::Comma, ComponentValue::WhiteSpace,
        ident("blue")])
    .unwrap();
    assert_eq!(g.angle_or_corner, AngleOrCorner::Angle(Angle::from_turns(1, 2)));
    assert_eq!(g.stops.len(), 2);
    assert_eq!(g.stops[0].color.parsed, red());
    assert_eq!(g.stops[1].color.parsed, blue());
    assert!(g.stops[0].position.is_none());
    assert!(g.stops[1].position.is_none());
}

#[test]
fn three_stops_default_direction() {
    let g = gradient(vec![ident("red"), ComponentValue::Comma, ident("green"),
        ComponentValue::Comma, ident("blue")])
    .unwrap();
    assert_eq!(g.angle_or_corner, AngleOrCorner::Angle(Angle::from_turns(1, 2)));
    assert_eq!(g.stops.len(), 3);
    assert_eq!(g.stops[1].color.authored, Some("green".to_string()));
}

#[test]
fn stops_with_positions() {
    let g = gradient(vec![
        ident("red"),
        ComponentValue::Percentage(num(10)),
        ComponentValue::Comma,
        ComponentValue::Hash("00f".to_string()),
        dim(-2, 1, "px"),
    ])
    .unwrap();
    assert_eq!(g.stops[0].position, Some(LengthOrPercentage::Percentage(Ratio::new(1, 10))));
    assert_eq!(g.stops[1].position, Some(LengthOrPercentage::Length(Length::Au(Au(-120)))));
    assert_eq!(g.stops[1].color.parsed, blue());
    assert_eq!(g.stops[1].color.authored, None);
}

#[test]
fn bad_stops_fail() {
    // A position that is not a length.
    assert!(gradient(vec![ident("red"), ident("bogus"), ComponentValue::Comma, ident("blue")])
        .is_err());
    // Not a color.
    assert!(gradient(vec![ident("nocolor"), ComponentValue::Comma, ident("blue")]).is_err());
    // Missing separator after a position.
    assert!(gradient(vec![ident("red"), dim(1, 1, "px"), ident("blue")]).is_err());
    // A trailing comma.
    assert!(gradient(vec![ident("red"), ComponentValue::Comma, ident("blue"),
        ComponentValue::Comma]).is_err());
}

#[test]
fn non_angle_dimension_is_left_for_the_stops() {
    // `5px` is not an angle; it is read again as the first stop, which is no color.
    assert!(gradient(vec![dim(5, 1, "px"), ComponentValue::Comma, ident("red"),
        ComponentValue::Comma, ident("blue")]).is_err());
}

#[test]
fn color_keeps_identifier_text() {
    let c = CSSColor::parse(&ident("RED")).unwrap();
    assert_eq!(c.parsed, red());
    assert_eq!(c.authored, Some("RED".to_string()));
    let h = CSSColor::parse(&ComponentValue::Hash("ff0000".to_string())).unwrap();
    assert_eq!(h.parsed, red());
    assert_eq!(h.authored, None);
    assert_eq!(c, h);
    assert!(CSSColor::parse(&ComponentValue::Hash("12345".to_string())).is_err());
    assert!(CSSColor::parse(&ComponentValue::Comma).is_err());
    assert_eq!(CSSColor::parse(&ident("currentcolor")).unwrap().parsed, Color::CurrentColor);
}

#[test]
fn character_width_one_and_three() {
    let ctx = context(600, 960);
    assert_eq!(compute_Au(Length::ServoCharacterWidth(1), &ctx), Au(600));
    assert_eq!(compute_Au(Length::ServoCharacterWidth(3), &ctx), Au(1200));
    assert_eq!(compute_Au(Length::ServoCharacterWidth(0), &ctx), Au(300));
    // An odd font size loses the rounding of the half advance.
    let odd = context(601, 960);
    assert_eq!(compute_Au(Length::ServoCharacterWidth(1), &odd), Au(601));
    assert_eq!(compute_Au(Length::ServoCharacterWidth(3), &odd), Au(1201));
}

#[test]
fn em_scaling() {
    let ctx = context(600, 960);
    assert_eq!(compute_Au(Length::Em(num(2)), &ctx), Au(1200));
    assert_eq!(compute_Au(Length::Em(Number::new(-1, 7)), &ctx), Au(-85));
}

#[test]
fn ex_and_rem_scaling() {
    let ctx = context(600, 960);
    assert_eq!(compute_Au(Length::Ex(num(2)), &ctx), Au(600));
    assert_eq!(compute_Au(Length::Ex(Number::new(1, 3)), &ctx), Au(100));
    assert_eq!(compute_Au(Length::Rem(Number::new(3, 2)), &ctx), Au(1440));
    assert_eq!(compute_Au(Length::Au(Au(7)), &ctx), Au(7));
}

#[test]
fn font_size_uses_given_reference() {
    assert_eq!(compute_Au_with_font_size(Length::Em(num(2)), Au(300), Au(960)), Au(600));
    assert_eq!(compute_Au_with_font_size(Length::Rem(num(2)), Au(300), Au(960)), Au(1920));
}

#[test]
fn sign_guard_on_lengths() {
    let neg = dim(-5, 1, "px");
    assert!(Length::parse_non_negative(&neg).is_err());
    assert_eq!(Length::parse(&neg), Ok(Length::Au(Au(-300))));
    let zero = ComponentValue::Number(num(0));
    assert_eq!(Length::parse(&zero), Ok(Length::Au(Au(0))));
    assert_eq!(Length::parse_non_negative(&zero), Ok(Length::Au(Au(0))));
    assert!(Length::parse(&ComponentValue::Number(num(3))).is_err());
    assert!(Length::parse(&ComponentValue::Percentage(num(3))).is_err());
}

#[test]
fn sign_guard_on_percentages() {
    let neg = ComponentValue::Percentage(num(-50));
    assert!(LengthOrPercentage::parse_non_negative(&neg).is_err());
    assert_eq!(LengthOrPercentage::parse(&neg), Ok(LengthOrPercentage::Percentage(Ratio::new(-1, 2))));
    assert!(LengthOrPercentageOrAuto::parse_non_negative(&neg).is_err());
    assert!(LengthOrPercentageOrNone::parse_non_negative(&neg).is_err());
    let zero = ComponentValue::Number(num(0));
    assert_eq!(
        LengthOrPercentage::parse_non_negative(&zero),
        Ok(LengthOrPercentage::Length(Length::Au(Au(0))))
    );
}

#[test]
fn auto_and_none_keywords() {
    assert_eq!(LengthOrPercentageOrAuto::parse(&ident("AUTO")), Ok(LengthOrPercentageOrAuto::Auto));
    assert!(LengthOrPercentageOrAuto::parse(&ident("none")).is_err());
    assert_eq!(
        LengthOrPercentageOrNone::parse(&ident("None")),
        Ok(LengthOrPercentageOrNone::NoneKeyword)
    );
    assert!(LengthOrPercentageOrNone::parse(&ident("auto")).is_err());
    assert_eq!(
        LengthOrPercentageOrAuto::parse(&dim(1, 1, "in")),
        Ok(LengthOrPercentageOrAuto::Length(Length::Au(Au(5760))))
    );
    assert!(LengthOrPercentageOrNone::parse(&ComponentValue::Comma).is_err());
}

#[test]
fn position_components() {
    assert_eq!(PositionComponent::parse(&ident("Center")), Ok(PositionComponent::Center));
    assert_eq!(PositionComponent::parse(&ident("bottom")), Ok(PositionComponent::Bottom));
    assert!(PositionComponent::parse(&ident("middle")).is_err());
    assert_eq!(
        PositionComponent::parse(&dim(-1, 1, "px")),
        Ok(PositionComponent::Length(Length::Au(Au(-60))))
    );
    assert_eq!(
        PositionComponent::parse(&ComponentValue::Percentage(num(-20))),
        Ok(PositionComponent::Percentage(Ratio::new(-1, 5)))
    );
    let half = LengthOrPercentage::Percentage(Ratio::new(1, 2));
    assert_eq!(PositionComponent::Center.to_length_or_percentage(), half);
    assert_eq!(
        PositionComponent::Top.to_length_or_percentage(),
        LengthOrPercentage::Percentage(Ratio::new(0, 1))
    );
    assert_eq!(
        PositionComponent::Right.to_length_or_percentage(),
        LengthOrPercentage::Percentage(Ratio::new(1, 1))
    );
}

#[test]
fn compute_length_families() {
    let ctx = context(600, 960);
    assert_eq!(
        compute_LengthOrPercentage(LengthOrPercentage::Length(Length::Em(num(1))), &ctx),
        computed::LengthOrPercentage::Length(Au(600))
    );
    assert_eq!(
        compute_LengthOrPercentage(LengthOrPercentage::Percentage(Ratio::new(1, 4)), &ctx),
        computed::LengthOrPercentage::Percentage(Ratio::new(1, 4))
    );
    assert_eq!(
        compute_LengthOrPercentageOrAuto(LengthOrPercentageOrAuto::Auto, &ctx),
        computed::LengthOrPercentageOrAuto::Auto
    );
    assert_eq!(
        compute_LengthOrPercentageOrNone(LengthOrPercentageOrNone::Length(Length::Rem(num(1))), &ctx),
        computed::LengthOrPercentageOrNone::Length(Au(960))
    );
    let c = CSSColor::parse(&ident("blue")).unwrap();
    assert_eq!(compute_CSSColor(c, &ctx), blue());
}

#[test]
fn compute_gradient() {
    let ctx = context(600, 960);
    let g = gradient(vec![ident("red"), dim(1, 1, "em"), ComponentValue::Comma, ident("blue")])
        .unwrap();
    let c = computed::LinearGradient::compute(g, &ctx);
    assert_eq!(c.angle_or_corner, AngleOrCorner::Angle(Angle::from_turns(1, 2)));
    assert_eq!(c.stops.len(), 2);
    assert_eq!(c.stops[0].color, red());
    assert_eq!(c.stops[0].position, Some(computed::LengthOrPercentage::Length(Au(600))));
    assert_eq!(c.stops[1].position, None);
}

#[test]
fn image_from_tokens() {
    let base = url::Url::parse("http://example.com/a/b.css").unwrap();
    let img = Image::from_component_value(&ComponentValue::Url("c.png".to_string()), &base)
        .unwrap();
    match img {
        Image::Url(u) => assert_eq!(u.as_str(), "http://example.com/a/c.png"),
        _ => panic!("expected a url"),
    }
    let f = ComponentValue::Function(
        "Linear-Gradient".to_string(),
        vec![ident("red"), ComponentValue::Comma, ident("blue")],
    );
    let img = Image::from_component_value(&f, &base).unwrap();
    let ctx = context(600, 960);
    match img.to_computed_value(&ctx) {
        computed::Image::LinearGradient(g) => assert_eq!(g.stops.len(), 2),
        _ => panic!("expected a gradient"),
    }
    let other = ComponentValue::Function("radial-gradient".to_string(), vec![]);
    assert!(Image::from_component_value(&other, &base).is_err());
    assert!(Image::from_component_value(&ident("red"), &base).is_err());
}

#[test]
fn broken_url_becomes_about_invalid() {
    let base = url::Url::parse("http://example.com/").unwrap();
    assert_eq!(parse_url("http://[::1", &base).as_str(), "about:invalid");
    assert_eq!(parse_url("/x", &base).as_str(), "http://example.com/x");
}

#[test]
fn number_equality_is_by_value() {
    assert_eq!(Number::new(1, 2), Number::new(2, 4));
    assert_ne!(Number::new(1, 2), Number::new(1, 3));
    assert_eq!(Ratio::new(-3, 6), Ratio::new(-1, 2));
}

#[test]
fn scale_by_truncates() {
    assert_eq!(Au(7).scale_by(Number::new(1, 2)), Au(3));
    assert_eq!(Au(-7).scale_by(Number::new(1, 2)), Au(-3));
    assert_eq!(Au(i32::MAX).scale_by(num(2)), Au(i32::MAX));
}

#[test]
fn other_tokens_are_refused() {
    assert!(Length::parse(&ComponentValue::Other).is_err());
    assert!(PositionComponent::parse(&ComponentValue::Other).is_err());
    assert!(CSSColor::parse(&ComponentValue::Other).is_err());
    assert!(gradient(vec![ident("red"), ComponentValue::Other, ident("blue")]).is_err());
}

#[test]
fn lengths_as_css_text() {
    assert_eq!(Au(720).to_css(), "12px");
    assert_eq!(Au(-30).to_css(), "-0.5px");
    assert_eq!(Au(20).to_css(), "0.333333px");
    assert_eq!(Length::Em(Number::new(3, 2)).to_css(), "1.5em");
    assert_eq!(Length::Ex(num(-2)).to_css(), "-2ex");
    assert_eq!(Length::Rem(Number::new(1, 4)).to_css(), "0.25rem");
    assert_eq!(LengthOrPercentage::Percentage(Ratio::new(1, 2)).to_css(), "50%");
    assert_eq!(LengthOrPercentageOrAuto::Auto.to_css(), "auto");
    assert_eq!(LengthOrPercentageOrNone::NoneKeyword.to_css(), "none");
    assert_eq!(computed::LengthOrPercentage::Length(Au(60)).to_css(), "1px");
    assert_eq!(computed::LengthOrPercentageOrAuto::Percentage(Ratio::new(1, 8)).to_css(), "12.5%");
    assert_eq!(computed::LengthOrPercentageOrNone::NoneKeyword.to_css(), "none");
}

#[test]
fn angles_and_directions_as_css_text() {
    assert_eq!(Angle::from_turns(1, 2).to_css(), "0.5turn");
    assert_eq!(Angle::parse_dimension(num(2), "rad").unwrap().to_css(), "2rad");
    assert_eq!(
        AngleOrCorner::Corner(HorizontalDirection::Right, VerticalDirection::Bottom).to_css(),
        "to right bottom"
    );
    assert_eq!(HorizontalDirection::Left.to_css(), "left");
    assert_eq!(VerticalDirection::Top.to_css(), "top");
}

#[test]
fn colors_as_css_text() {
    assert_eq!(CSSColor::parse(&ident("Red")).unwrap().to_css(), "Red");
    let hash = CSSColor::parse(&ComponentValue::Hash("ff0000".to_string())).unwrap();
    assert_eq!(hash.to_css(), "rgb(255, 0, 0)");
}

#[test]
fn gradients_as_css_text() {
    let g = gradient(vec![ident("to"), ident("top"), ident("left"), ComponentValue::Comma,
        ident("red"), ComponentValue::Comma, ident("blue"), ComponentValue::Percentage(num(40))])
    .unwrap();
    assert_eq!(g.to_css(), "to left top, red, blue 40%");
    assert_eq!(g.stops[1].to_css(), "blue 40%");
    let img = Image::LinearGradient(g);
    assert_eq!(img.to_css(), "linear-gradient(to left top, red, blue 40%)");
    let ctx = context(600, 960);
    let c = img.to_computed_value(&ctx);
    assert_eq!(c.to_css(), "linear-gradient(to left top, rgb(255, 0, 0), rgb(0, 0, 255) 40%)");
    assert_eq!(style_values::specified::CSSImage(None).to_css(), "none");
}

#[test]
fn url_image_as_css_text() {
    let base = url::Url::parse("http://example.com/").unwrap();
    let img = Image::from_component_value(&ComponentValue::Url("x.png".to_string()), &base)
        .unwrap();
    assert_eq!(img.to_css(), "url(\"http://example.com/x.png\")");
}

fn func(name: &str, args: Vec<ComponentValue>) -> ComponentValue {
    ComponentValue::Function(name.to_string(), args)
}

#[test]
fn functional_colors() {
    let rgb = func("rgb", vec![
        ComponentValue::Number(num(255)),
        ComponentValue::Comma,
        ComponentValue::WhiteSpace,
        ComponentValue::Number(num(0)),
        ComponentValue::Comma,
        ComponentValue::Number(num(0)),
    ]);
    let c = CSSColor::parse(&rgb).unwrap();
    assert_eq!(c.parsed, red());
    assert_eq!(c.authored, None);
    let rgba = func("rgba", vec![
        ComponentValue::Number(num(0)),
        ComponentValue::Comma,
        ComponentValue::Number(num(0)),
        ComponentValue::Comma,
        ComponentValue::Number(num(255)),
        ComponentValue::Comma,
        ComponentValue::Number(Number::new(1, 2)),
    ]);
    assert_eq!(
        CSSColor::parse(&rgba).unwrap().parsed,
        Color::RGBA(RGBA { red: 0, green: 0, blue: 255, alpha: 128 })
    );
    let hsl = func("hsl", vec![
        ComponentValue::Number(num(0)),
        ComponentValue::Comma,
        ComponentValue::Percentage(num(100)),
        ComponentValue::Comma,
        ComponentValue::Percentage(num(50)),
    ]);
    assert_eq!(CSSColor::parse(&hsl).unwrap().parsed, red());
    assert!(CSSColor::parse(&func("rgb", vec![ComponentValue::Number(num(1))])).is_err());
    assert!(CSSColor::parse(&func("rgb", vec![func("calc", vec![])])).is_err());
    assert!(CSSColor::parse(&func("nocolor", vec![])).is_err());
}

#[test]
fn function_tokens_as_css_text() {
    let args = vec![
        ComponentValue::Number(Number::new(1, 4)),
        ComponentValue::Comma,
        ComponentValue::Percentage(num(-3)),
        ComponentValue::WhiteSpace,
        dim(2, 1, "px"),
        ComponentValue::Hash("abc".to_string()),
    ];
    assert_eq!(
        style_values::serialize::function_to_css("f", &args),
        Some("f(0.25,-3% 2px#abc)".to_string())
    );
    assert_eq!(style_values::serialize::function_to_css("f", &vec![ComponentValue::Other]), None);
}

#[test]
fn gradient_with_functional_color() {
    let rgb = func("rgb", vec![
        ComponentValue::Number(num(0)),
        ComponentValue::Comma,
        ComponentValue::Number(num(0)),
        ComponentValue::Comma,
        ComponentValue::Number(num(255)),
    ]);
    let g = gradient(vec![ident("red"), ComponentValue::Comma, rgb]).unwrap();
    assert_eq!(g.stops[1].color.parsed, blue());
}
