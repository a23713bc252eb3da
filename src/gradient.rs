//! Linear gradients: their values and the parser of their arguments.
//!
//! The parser reads the arguments once, from left to right, with one token of
//! lookahead: a token that it looks at and does not take is left for the next
//! step. Whitespace between arguments is skipped first.

use vstd::prelude::*;

use crate::specified::{
    angle_spec, color_spec, lop_spec, to_result, turns, Angle, CSSColor,
    LengthOrPercentage,
};
use crate::token::{eq_ignore_ascii_case, eq_ignore_case, ComponentValue};

verus! {

/// A gradient's direction when given as a corner: the horizontal side.
#[derive(Clone, Copy, Debug, PartialEq, Eq, Structural)]
pub enum HorizontalDirection {
    Left,
    Right,
}

/// A gradient's direction when given as a corner: the vertical side.
#[derive(Clone, Copy, Debug, PartialEq, Eq, Structural)]
pub enum VerticalDirection {
    Top,
    Bottom,
}

/// The direction of a linear gradient.
#[derive(Clone, Copy, Debug, PartialEq)]
pub enum AngleOrCorner {
    Angle(Angle),
    Corner(HorizontalDirection, VerticalDirection),
}

/// One color stop. A stop without a position lies halfway between its
/// neighbours; placing it is left to whoever draws the gradient.
#[derive(Clone, Debug, PartialEq)]
pub struct ColorStop {
    pub color: CSSColor,
    pub position: Option<LengthOrPercentage>,
}

/// A linear gradient: a direction and at least two color stops.
#[derive(Clone, Debug, PartialEq)]
pub struct LinearGradient {
    pub angle_or_corner: AngleOrCorner,
    pub stops: Vec<ColorStop>,
}

/// The tokens with the whitespace taken out, in order.
pub open spec fn without_whitespace(s: Seq<ComponentValue>) -> Seq<ComponentValue>
    decreases s.len(),
{
    if s.len() == 0 {
        seq![]
    } else {
        let rest = without_whitespace(s.drop_last());
        if s.last() is WhiteSpace {
            rest
        } else {
            rest.push(s.last())
        }
    }
}

/// The direction when none is written: towards the bottom, half a turn.
pub open spec fn default_direction() -> AngleOrCorner {
    AngleOrCorner::Angle(turns(1, 2))
}

/// The direction named by the sides after `to`: one side gives the angle that
/// points at it, two sides a corner.
pub open spec fn resolve_sides(h: Option<HorizontalDirection>, v: Option<VerticalDirection>) -> Option<
    AngleOrCorner,
> {
    match (h, v) {
        (None, Some(VerticalDirection::Top)) => Some(AngleOrCorner::Angle(turns(0, 1))),
        (Some(HorizontalDirection::Right), None) => Some(AngleOrCorner::Angle(turns(1, 4))),
        (None, Some(VerticalDirection::Bottom)) => Some(AngleOrCorner::Angle(turns(1, 2))),
        (Some(HorizontalDirection::Left), None) => Some(AngleOrCorner::Angle(turns(3, 4))),
        (Some(hd), Some(vd)) => Some(AngleOrCorner::Corner(hd, vd)),
        (None, None) => None,
    }
}

/// The sides after `to`, read from index `i` with the sides `h` and `v` seen so
/// far, up to a comma (left in place) or the end: the direction, and where the
/// reading stopped.
pub open spec fn side_words(
    toks: Seq<ComponentValue>,
    i: int,
    h: Option<HorizontalDirection>,
    v: Option<VerticalDirection>,
) -> Option<(AngleOrCorner, int)>
    decreases toks.len() - i,
{
    if i < 0 || i >= toks.len() {
        match resolve_sides(h, v) {
            Some(d) => Some((d, i)),
            None => None,
        }
    } else {
        match toks[i] {
            ComponentValue::Ident(s) => if eq_ignore_case(s@, "top"@) && v is None {
                side_words(toks, i + 1, h, Some(VerticalDirection::Top))
            } else if eq_ignore_case(s@, "bottom"@) && v is None {
                side_words(toks, i + 1, h, Some(VerticalDirection::Bottom))
            } else if eq_ignore_case(s@, "left"@) && h is None {
                side_words(toks, i + 1, Some(HorizontalDirection::Left), v)
            } else if eq_ignore_case(s@, "right"@) && h is None {
                side_words(toks, i + 1, Some(HorizontalDirection::Right), v)
            } else {
                None
            },
            ComponentValue::Comma => match resolve_sides(h, v) {
                Some(d) => Some((d, i)),
                None => None,
            },
            _ => None,
        }
    }
}

/// The direction at the start of the arguments: the direction, whether a
/// comma must follow it, and the index of the first token after it.
pub open spec fn direction_spec(toks: Seq<ComponentValue>) -> Option<(AngleOrCorner, bool, int)> {
    if toks.len() == 0 {
        None
    } else {
        match toks[0] {
            ComponentValue::Dimension(v, u) => match angle_spec(v, u@) {
                Some(a) => Some((AngleOrCorner::Angle(a), true, 1)),
                None => Some((default_direction(), false, 0)),
            },
            ComponentValue::Ident(s) => if eq_ignore_case(s@, "to"@) {
                match side_words(toks, 1, None, None) {
                    Some((d, i)) => Some((d, true, i)),
                    None => None,
                }
            } else {
                Some((default_direction(), false, 0))
            },
            _ => Some((default_direction(), false, 0)),
        }
    }
}

/// One color stop read from index `i`: the stop and the index after it. A comma
/// after the color is left in place.
pub open spec fn stop_spec(toks: Seq<ComponentValue>, i: int) -> Option<(ColorStop, int)> {
    if i < 0 || i >= toks.len() {
        None
    } else {
        match color_spec(toks[i]) {
            None => None,
            Some(c) => if i + 1 >= toks.len() || toks[i + 1] is Comma {
                Some((ColorStop { color: c, position: None }, i + 1))
            } else {
                match lop_spec(toks[i + 1], true) {
                    Some(p) => Some((ColorStop { color: c, position: Some(p) }, i + 2)),
                    None => None,
                }
            },
        }
    }
}

/// `p` before each list that `o` holds.
pub open spec fn prepend(p: Seq<ColorStop>, o: Option<Seq<ColorStop>>) -> Option<Seq<ColorStop>> {
    match o {
        Some(rest) => Some(p + rest),
        None => None,
    }
}

/// The stops that follow from index `i`, each after a comma, up to the end.
pub open spec fn more_stops(toks: Seq<ComponentValue>, i: int) -> Option<Seq<ColorStop>>
    decreases toks.len() - i,
{
    if i < 0 || i >= toks.len() {
        Some(seq![])
    } else if toks[i] is Comma {
        match stop_spec(toks, i + 1) {
            Some((s, j)) => if j > i {
                prepend(seq![s], more_stops(toks, j))
            } else {
                None
            },
            None => None,
        }
    } else {
        None
    }
}

/// A comma-separated list of one or more stops, from index `i` to the end.
pub open spec fn stop_list(toks: Seq<ComponentValue>, i: int) -> Option<Seq<ColorStop>> {
    match stop_spec(toks, i) {
        Some((s, j)) => prepend(seq![s], more_stops(toks, j)),
        None => None,
    }
}

/// What the arguments of `linear-gradient(...)` give, whitespace taken out:
/// the direction and the stops, when there are at least two.
pub open spec fn gradient_spec(toks: Seq<ComponentValue>) -> Option<(AngleOrCorner, Seq<ColorStop>)> {
    match direction_spec(toks) {
        None => None,
        Some((d, need_comma, i)) => {
            let stops = if need_comma {
                if i >= toks.len() {
                    Some(seq![])
                } else if toks[i] is Comma {
                    stop_list(toks, i + 1)
                } else {
                    None
                }
            } else {
                stop_list(toks, i)
            };
            match stops {
                Some(ss) => if ss.len() >= 2 {
                    Some((d, ss))
                } else {
                    None
                },
                None => None,
            }
        },
    }
}

/// `order` lists, in order, the indexes of `args` that hold `toks`.
pub open spec fn indexes(args: Seq<ComponentValue>, order: Seq<usize>, toks: Seq<ComponentValue>) -> bool {
    &&& order.len() == toks.len()
    &&& forall|j: int|
        #![trigger order[j]]
        0 <= j < order.len() ==> order[j] < args.len() && args[order[j] as int] == toks[j]
}

/// Every token has non-zero denominators.
pub open spec fn all_wf(s: Seq<ComponentValue>) -> bool {
    forall|j: int| 0 <= j < s.len() ==> s[j].wf()
}

proof fn lemma_wf_kept(s: Seq<ComponentValue>)
    requires
        all_wf(s),
    ensures
        all_wf(without_whitespace(s)),
    decreases s.len(),
{
    if s.len() > 0 {
        lemma_wf_kept(s.drop_last());
    }
}

/// The indexes of the tokens that are not whitespace.
fn skip_whitespace(args: &[ComponentValue]) -> (order: Vec<usize>)
    ensures
        indexes(args@, order@, without_whitespace(args@)),
{
    let mut order: Vec<usize> = Vec::new();
    let mut k: usize = 0;
    while k < args.len()
        invariant
            k <= args@.len(),
            indexes(args@, order@, without_whitespace(args@.take(k as int))),
        decreases args@.len() - k,
    {
        let ghost before = without_whitespace(args@.take(k as int));
        assert(args@.take(k as int + 1).drop_last() =~= args@.take(k as int));
        assert(args@.take(k as int + 1).last() == args@[k as int]);
        match &args[k] {
            ComponentValue::WhiteSpace => {
                assert(without_whitespace(args@.take(k as int + 1)) == before);
            },
            _ => {
                let ghost old_order = order@;
                order.push(k);
                let ghost now = before.push(args@[k as int]);
                assert(without_whitespace(args@.take(k as int + 1)) == now);
                assert forall|j: int| 0 <= j < order@.len() implies order@[j] < args@.len()
                    && args@[order@[j] as int] == now[j] by {
                    assert(order@ == old_order.push(k));
                    if j < old_order.len() {
                        assert(order@[j] == old_order[j]);
                        assert(old_order[j] < args@.len());
                        assert(args@[old_order[j] as int] == before[j]);
                        assert(now[j] == before[j]);
                    } else {
                        assert(order@[j] == k);
                    }
                }
            },
        }
        k = k + 1;
    }
    assert(args@.take(args@.len() as int) =~= args@);
    order
}

/// The `i`-th token that is not whitespace.
fn token_at<'a>(args: &'a [ComponentValue], order: &Vec<usize>, i: usize) -> (t: &'a ComponentValue)
    requires
        indexes(args@, order@, without_whitespace(args@)),
        i < order@.len(),
    ensures
        *t == without_whitespace(args@)[i as int],
{
    &args[order[i]]
}

/// The direction of the side after `to`, if one is named.
fn resolve(h: Option<HorizontalDirection>, v: Option<VerticalDirection>) -> (r: Option<AngleOrCorner>)
    ensures
        r == resolve_sides(h, v),
{
    match (h, v) {
        (None, Some(VerticalDirection::Top)) => Some(AngleOrCorner::Angle(Angle::from_turns(0, 1))),
        (Some(HorizontalDirection::Right), None) => Some(
            AngleOrCorner::Angle(Angle::from_turns(1, 4)),
        ),
        (None, Some(VerticalDirection::Bottom)) => Some(
            AngleOrCorner::Angle(Angle::from_turns(1, 2)),
        ),
        (Some(HorizontalDirection::Left), None) => Some(
            AngleOrCorner::Angle(Angle::from_turns(3, 4)),
        ),
        (Some(hd), Some(vd)) => Some(AngleOrCorner::Corner(hd, vd)),
        (None, None) => None,
    }
}

/// Reads the sides after `to`, from index 1 up to a comma or the end.
fn parse_sides(args: &[ComponentValue], order: &Vec<usize>) -> (r: Result<(AngleOrCorner, usize), ()>)
    requires
        indexes(args@, order@, without_whitespace(args@)),
        order@.len() >= 1,
    ensures
        match r {
            Ok((d, i)) => side_words(without_whitespace(args@), 1, None, None) == Some(
                (d, i as int),
            ) && i <= order@.len(),
            Err(()) => side_words(without_whitespace(args@), 1, None, None) is None,
        },
{
    let ghost toks = without_whitespace(args@);
    let mut h: Option<HorizontalDirection> = None;
    let mut v: Option<VerticalDirection> = None;
    let mut i: usize = 1;
    let mut at_comma = false;
    while i < order.len() && !at_comma
        invariant
            1 <= i <= order@.len(),
            indexes(args@, order@, toks),
            toks == without_whitespace(args@),
            at_comma ==> i < toks.len() && toks[i as int] is Comma,
            side_words(toks, 1, None, None) == side_words(toks, i as int, h, v),
        decreases order@.len() - i + (if at_comma { 0int } else { 1int }),
    {
        match token_at(args, order, i) {
            ComponentValue::Ident(s) => {
                let s = s.as_str();
                if eq_ignore_ascii_case(s, "top") && v.is_none() {
                    v = Some(VerticalDirection::Top);
                } else if eq_ignore_ascii_case(s, "bottom") && v.is_none() {
                    v = Some(VerticalDirection::Bottom);
                } else if eq_ignore_ascii_case(s, "left") && h.is_none() {
                    h = Some(HorizontalDirection::Left);
                } else if eq_ignore_ascii_case(s, "right") && h.is_none() {
                    h = Some(HorizontalDirection::Right);
                } else {
                    return Err(());
                }
                i = i + 1;
            },
            ComponentValue::Comma => {
                at_comma = true;
            },
            _ => {
                return Err(());
            },
        }
    }
    match resolve(h, v) {
        Some(d) => Ok((d, i)),
        None => Err(()),
    }
}

/// Reads the direction at the start of the arguments.
fn parse_direction(args: &[ComponentValue], order: &Vec<usize>) -> (r: Result<
    (AngleOrCorner, bool, usize),
    (),
>)
    requires
        indexes(args@, order@, without_whitespace(args@)),
        all_wf(without_whitespace(args@)),
    ensures
        match r {
            Ok((d, c, i)) => direction_spec(without_whitespace(args@)) == Some((d, c, i as int))
                && i <= order@.len(),
            Err(()) => direction_spec(without_whitespace(args@)) is None,
        },
{
    if order.len() == 0 {
        return Err(());
    }
    let default = AngleOrCorner::Angle(Angle::from_turns(1, 2));
    match token_at(args, order, 0) {
        ComponentValue::Dimension(value, unit) => match Angle::parse_dimension(*value, unit.as_str()) {
            Ok(angle) => Ok((AngleOrCorner::Angle(angle), true, 1)),
            Err(()) => Ok((default, false, 0)),
        },
        ComponentValue::Ident(s) => {
            if eq_ignore_ascii_case(s.as_str(), "to") {
                match parse_sides(args, order) {
                    Ok((d, i)) => Ok((d, true, i)),
                    Err(()) => Err(()),
                }
            } else {
                Ok((default, false, 0))
            }
        },
        _ => Ok((default, false, 0)),
    }
}

/// Reads one color stop from index `i`.
fn parse_color_stop(args: &[ComponentValue], order: &Vec<usize>, i: usize) -> (r: Result<
    (ColorStop, usize),
    (),
>)
    requires
        indexes(args@, order@, without_whitespace(args@)),
        all_wf(without_whitespace(args@)),
    ensures
        match r {
            Ok((s, j)) => stop_spec(without_whitespace(args@), i as int) == Some((s, j as int))
                && j <= order@.len(),
            Err(()) => stop_spec(without_whitespace(args@), i as int) is None,
        },
{
    if i >= order.len() {
        return Err(());
    }
    let color = match CSSColor::parse(token_at(args, order, i)) {
        Ok(c) => c,
        Err(()) => {
            return Err(());
        },
    };
    if i + 1 >= order.len() {
        return Ok((ColorStop { color, position: None }, i + 1));
    }
    let next = token_at(args, order, i + 1);
    match next {
        ComponentValue::Comma => Ok((ColorStop { color, position: None }, i + 1)),
        _ => match LengthOrPercentage::parse(next) {
            Ok(p) => Ok((ColorStop { color, position: Some(p) }, i + 2)),
            Err(()) => Err(()),
        },
    }
}

proof fn lemma_prepend_push(p: Seq<ColorStop>, s: ColorStop, o: Option<Seq<ColorStop>>)
    ensures
        prepend(p, prepend(seq![s], o)) == prepend(p.push(s), o),
{
    if let Some(rest) = o {
        assert(p + (seq![s] + rest) =~= p.push(s) + rest);
    }
}

/// Reads a comma-separated list of one or more stops, from index `i` to the end.
fn parse_stop_list(args: &[ComponentValue], order: &Vec<usize>, i: usize) -> (r: Result<
    Vec<ColorStop>,
    (),
>)
    requires
        indexes(args@, order@, without_whitespace(args@)),
        all_wf(without_whitespace(args@)),
    ensures
        match r {
            Ok(stops) => stop_list(without_whitespace(args@), i as int) == Some(stops@),
            Err(()) => stop_list(without_whitespace(args@), i as int) is None,
        },
{
    let ghost toks = without_whitespace(args@);
    let (first, mut j) = match parse_color_stop(args, order, i) {
        Ok(x) => x,
        Err(()) => {
            return Err(());
        },
    };
    let mut stops: Vec<ColorStop> = Vec::new();
    stops.push(first);
    assert(stops@ == seq![first]);
    while j < order.len()
        invariant
            j <= order@.len(),
            indexes(args@, order@, toks),
            toks == without_whitespace(args@),
            all_wf(toks),
            stop_list(toks, i as int) == prepend(stops@, more_stops(toks, j as int)),
        decreases order@.len() - j,
    {
        match token_at(args, order, j) {
            ComponentValue::Comma => match parse_color_stop(args, order, j + 1) {
                Ok((s, k)) => {
                    proof {
                        lemma_prepend_push(stops@, s, more_stops(toks, k as int));
                    }
                    stops.push(s);
                    j = k;
                },
                Err(()) => {
                    return Err(());
                },
            },
            _ => {
                return Err(());
            },
        }
    }
    assert(stops@ + seq![] =~= stops@);
    Ok(stops)
}

impl LinearGradient {
    /// Parses the arguments of `linear-gradient(...)`: an optional direction
    /// (an angle, or `to` and one or two sides, then a comma), then two or
    /// more comma-separated color stops, each a color and an optional length
    /// or percentage. Without a direction the gradient runs to the bottom.
    pub fn parse_function(args: &[ComponentValue]) -> (r: Result<LinearGradient, ()>)
        requires
            all_wf(args@),
        ensures
            match gradient_spec(without_whitespace(args@)) {
                Some((d, stops)) => r is Ok && r->Ok_0.angle_or_corner == d && r->Ok_0.stops@
                    == stops,
                None => r is Err,
            },
    {
        let order = skip_whitespace(args);
        proof {
            lemma_wf_kept(args@);
        }
        let (angle_or_corner, need_comma, i) = match parse_direction(args, &order) {
            Ok(x) => x,
            Err(()) => {
                return Err(());
            },
        };
        let stops = if need_comma {
            if i >= order.len() {
                Vec::new()
            } else {
                match token_at(args, &order, i) {
                    ComponentValue::Comma => match parse_stop_list(args, &order, i + 1) {
                        Ok(s) => s,
                        Err(()) => {
                            return Err(());
                        },
                    },
                    _ => {
                        return Err(());
                    },
                }
            }
        } else {
            match parse_stop_list(args, &order, i) {
                Ok(s) => s,
                Err(()) => {
                    return Err(());
                },
            }
        };
        if stops.len() < 2 {
            return Err(());
        }
        Ok(LinearGradient { angle_or_corner, stops })
    }
}

} // verus!
