//! Fit policies and the layout transform that places content of one size
//! inside a container of another.
use vstd::prelude::*;

use crate::ratio::Ratio;
use crate::text::same_text;

verus! {

/// How content is scaled to its container.
#[derive(Clone, Copy, Debug, PartialEq, Eq, Structural)]
pub enum Fit {
    /// The largest uniform scale at which the content is wholly visible.
    Contain,
    /// Each axis scaled to the container on its own; may distort.
    Fill,
    /// The smallest uniform scale at which the content covers the container.
    Cover,
    /// A uniform scale that matches the container's width.
    FitWidth,
    /// A uniform scale that matches the container's height.
    FitHeight,
    /// No scaling.
    Unscaled,
}

/// Configuration name of [`Fit::Contain`].
pub const FIT_CONTAIN: &'static str = "contain";

/// Configuration name of [`Fit::Fill`].
pub const FIT_FILL: &'static str = "fill";

/// Configuration name of [`Fit::Cover`].
pub const FIT_COVER: &'static str = "cover";

/// Configuration name of [`Fit::FitWidth`].
pub const FIT_WIDTH: &'static str = "fit-width";

/// Configuration name of [`Fit::FitHeight`].
pub const FIT_HEIGHT: &'static str = "fit-height";

/// Configuration name of [`Fit::Unscaled`].
pub const FIT_NONE: &'static str = "none";

/// The policy that a configuration name selects; an unknown name selects
/// [`Fit::Contain`].
pub open spec fn fit_named(name: Seq<char>) -> Fit {
    if name == FIT_CONTAIN@ {
        Fit::Contain
    } else if name == FIT_FILL@ {
        Fit::Fill
    } else if name == FIT_COVER@ {
        Fit::Cover
    } else if name == FIT_WIDTH@ {
        Fit::FitWidth
    } else if name == FIT_HEIGHT@ {
        Fit::FitHeight
    } else if name == FIT_NONE@ {
        Fit::Unscaled
    } else {
        Fit::Contain
    }
}

/// The configuration name of a policy.
pub open spec fn fit_name(fit: Fit) -> &'static str {
    match fit {
        Fit::Contain => FIT_CONTAIN,
        Fit::Fill => FIT_FILL,
        Fit::Cover => FIT_COVER,
        Fit::FitWidth => FIT_WIDTH,
        Fit::FitHeight => FIT_HEIGHT,
        Fit::Unscaled => FIT_NONE,
    }
}

impl<'a> From<&'a str> for Fit {
    fn from(value: &'a str) -> (r: Fit)
        ensures
            r == fit_named(value@),
    {
        if same_text(value, FIT_CONTAIN) {
            Fit::Contain
        } else if same_text(value, FIT_FILL) {
            Fit::Fill
        } else if same_text(value, FIT_COVER) {
            Fit::Cover
        } else if same_text(value, FIT_WIDTH) {
            Fit::FitWidth
        } else if same_text(value, FIT_HEIGHT) {
            Fit::FitHeight
        } else if same_text(value, FIT_NONE) {
            Fit::Unscaled
        } else {
            Fit::Contain
        }
    }
}

impl<'a> vstd::std_specs::convert::FromSpecImpl<&'a str> for Fit {
    open spec fn obeys_from_spec() -> bool {
        true
    }

    open spec fn from_spec(v: &'a str) -> Fit {
        fit_named(v@)
    }
}

impl From<Fit> for &'static str {
    fn from(fit: Fit) -> (r: &'static str)
        ensures
            r == fit_name(fit),
    {
        match fit {
            Fit::Contain => FIT_CONTAIN,
            Fit::Fill => FIT_FILL,
            Fit::Cover => FIT_COVER,
            Fit::FitWidth => FIT_WIDTH,
            Fit::FitHeight => FIT_HEIGHT,
            Fit::Unscaled => FIT_NONE,
        }
    }
}

impl vstd::std_specs::convert::FromSpecImpl<Fit> for &'static str {
    open spec fn obeys_from_spec() -> bool {
        true
    }

    open spec fn from_spec(v: Fit) -> &'static str {
        fit_name(v)
    }
}

/// Reading back the name of a policy gives the same policy.
pub proof fn lemma_fit_name_round_trip(fit: Fit)
    ensures
        fit_named(fit_name(fit)@) == fit,
{
    reveal_strlit("contain");
    reveal_strlit("fill");
    reveal_strlit("cover");
    reveal_strlit("fit-width");
    reveal_strlit("fit-height");
    reveal_strlit("none");
    assert(FIT_FILL@.len() != FIT_CONTAIN@.len());
    assert(FIT_COVER@.len() != FIT_CONTAIN@.len());
    assert(FIT_COVER@[0] != FIT_FILL@[0]);
    assert(FIT_WIDTH@.len() != FIT_CONTAIN@.len());
    assert(FIT_WIDTH@.len() != FIT_FILL@.len());
    assert(FIT_WIDTH@.len() != FIT_COVER@.len());
    assert(FIT_HEIGHT@.len() != FIT_CONTAIN@.len());
    assert(FIT_HEIGHT@.len() != FIT_FILL@.len());
    assert(FIT_HEIGHT@.len() != FIT_COVER@.len());
    assert(FIT_HEIGHT@.len() != FIT_WIDTH@.len());
    assert(FIT_NONE@.len() != FIT_CONTAIN@.len());
    assert(FIT_NONE@[0] != FIT_FILL@[0]);
    assert(FIT_NONE@[0] != FIT_COVER@[0]);
    assert(FIT_NONE@.len() != FIT_WIDTH@.len());
    assert(FIT_NONE@.len() != FIT_HEIGHT@.len());
}

/// Where content sits in the room its container leaves over: the point
/// `(x / den, y / den)` of the unit square. `(0, 0)` pins the content to the
/// top left corner, `(1, 1)` to the bottom right.
#[derive(Clone, Copy, Debug, PartialEq, Eq, Structural)]
pub struct Anchor {
    pub x: u32,
    pub y: u32,
    pub den: u32,
}

impl Anchor {
    /// The point lies in the unit square.
    pub open spec fn wf(self) -> bool {
        &&& self.den > 0
        &&& self.x <= self.den
        &&& self.y <= self.den
    }

    /// The point `(x / den, y / den)`, if it lies in the unit square.
    pub fn new(x: u32, y: u32, den: u32) -> (r: Option<Anchor>)
        ensures
            r is Some <==> (Anchor { x, y, den }).wf(),
            r is Some ==> r == Some(Anchor { x, y, den }),
    {
        if den > 0 && x <= den && y <= den {
            Some(Anchor { x, y, den })
        } else {
            None
        }
    }

    /// The centre of the container, `(1/2, 1/2)`.
    pub fn center() -> (r: Anchor)
        ensures
            r == (Anchor { x: 1, y: 1, den: 2 }),
            r.wf(),
    {
        Anchor { x: 1, y: 1, den: 2 }
    }
}

/// A fit policy together with the anchor that places the scaled content.
#[derive(Clone, Copy, Debug, PartialEq, Eq, Structural)]
pub struct Layout {
    pub fit: Fit,
    pub anchor: Anchor,
}

/// The transform that puts content into its container: scale each axis,
/// then move by the translation.
#[derive(Clone, Copy, Debug, PartialEq, Eq, Structural)]
pub struct LayoutResult {
    pub scale_x: Ratio,
    pub scale_y: Ratio,
    pub translate_x: Ratio,
    pub translate_y: Ratio,
}

/// `container / content` as a fraction.
pub open spec fn ratio_of(container: u32, content: u32) -> Ratio {
    Ratio { num: container as i128, den: content as i128 }
}

/// The scales of the two axes that a policy gives content of size `w × h`
/// in a container of size `cw × ch`. Of the two ratios `cw / w` and
/// `ch / h`, `Contain` takes the smaller, `Cover` the larger.
pub open spec fn scales_of(fit: Fit, cw: u32, ch: u32, w: u32, h: u32) -> (Ratio, Ratio) {
    let rw = ratio_of(cw, w);
    let rh = ratio_of(ch, h);
    match fit {
        Fit::Contain => if cw * h <= ch * w {
            (rw, rw)
        } else {
            (rh, rh)
        },
        Fit::Cover => if cw * h >= ch * w {
            (rw, rw)
        } else {
            (rh, rh)
        },
        Fit::Fill => (rw, rh),
        Fit::FitWidth => (rw, rw),
        Fit::FitHeight => (rh, rh),
        Fit::Unscaled => (Ratio { num: 1, den: 1 }, Ratio { num: 1, den: 1 }),
    }
}

/// The shift along one axis: the room left over once content of length
/// `content` is scaled by `scale`, times the anchor's coordinate `a / den`.
pub open spec fn shift_of(container: u32, content: u32, scale: Ratio, a: u32, den: u32) -> Ratio {
    Ratio {
        num: ((container * scale.den - content * scale.num) * a) as i128,
        den: (scale.den * den) as i128,
    }
}

/// The transform of `layout` for content of size `w × h` in a container of
/// size `cw × ch`.
pub open spec fn layout_of(layout: Layout, cw: u32, ch: u32, w: u32, h: u32) -> LayoutResult {
    let (sx, sy) = scales_of(layout.fit, cw, ch, w, h);
    LayoutResult {
        scale_x: sx,
        scale_y: sy,
        translate_x: shift_of(cw, w, sx, layout.anchor.x, layout.anchor.den),
        translate_y: shift_of(ch, h, sy, layout.anchor.y, layout.anchor.den),
    }
}

/// A scale whose numerator and denominator are sizes.
pub open spec fn size_ratio(r: Ratio) -> bool {
    &&& 0 <= r.num <= u32::MAX
    &&& 0 < r.den <= u32::MAX
}

fn ratio(container: u32, content: u32) -> (r: Ratio)
    requires
        content > 0,
    ensures
        r == ratio_of(container, content),
        size_ratio(r),
{
    Ratio { num: container as i128, den: content as i128 }
}

fn product(a: u32, b: u32) -> (r: u64)
    ensures
        r == a * b,
{
    assert(0 <= a * b <= u32::MAX * u32::MAX) by (nonlinear_arith);
    (a as u64) * (b as u64)
}

fn shift(container: u32, content: u32, scale: Ratio, a: u32, den: u32) -> (r: Ratio)
    requires
        size_ratio(scale),
        den > 0,
    ensures
        r == shift_of(container, content, scale, a, den),
        r.wf(),
{
    let c: i128 = container as i128;
    let l: i128 = content as i128;
    let ghost m: int = u32::MAX as int;
    assert(0 <= c * scale.den <= m * m) by (nonlinear_arith)
        requires
            0 <= c <= m,
            0 <= scale.den <= m,
    ;
    assert(0 <= l * scale.num <= m * m) by (nonlinear_arith)
        requires
            0 <= l <= m,
            0 <= scale.num <= m,
    ;
    let room: i128 = c * scale.den - l * scale.num;
    assert(-(m * m) * m <= room * a <= (m * m) * m) by (nonlinear_arith)
        requires
            -(m * m) <= room <= m * m,
            0 <= a <= m,
    ;
    assert(0 < scale.den * den <= m * m) by (nonlinear_arith)
        requires
            0 < scale.den <= m,
            0 < den <= m,
    ;
    Ratio { num: room * (a as i128), den: scale.den * (den as i128) }
}

impl Layout {
    /// The layout used when nothing else is configured: `Contain`, centred.
    pub fn new() -> (r: Layout)
        ensures
            r == (Layout { fit: Fit::Contain, anchor: Anchor { x: 1, y: 1, den: 2 } }),
    {
        Layout { fit: Fit::Contain, anchor: Anchor::center() }
    }

    /// The transform that places content of size `content_w × content_h`
    /// in a container of size `container_w × container_h`; `None` when the
    /// content has no area to scale.
    pub fn compute(
        &self,
        container_w: u32,
        container_h: u32,
        content_w: u32,
        content_h: u32,
    ) -> (r: Option<LayoutResult>)
        requires
            self.anchor.wf(),
        ensures
            r == if content_w == 0 || content_h == 0 {
                None
            } else {
                Some(layout_of(*self, container_w, container_h, content_w, content_h))
            },
    {
        if content_w == 0 || content_h == 0 {
            return None;
        }
        let rw = ratio(container_w, content_w);
        let rh = ratio(container_h, content_h);
        let across: u64 = product(container_w, content_h);
        let down: u64 = product(container_h, content_w);
        let one = Ratio { num: 1, den: 1 };
        let (sx, sy) = match self.fit {
            Fit::Contain => if across <= down {
                (rw, rw)
            } else {
                (rh, rh)
            },
            Fit::Cover => if across >= down {
                (rw, rw)
            } else {
                (rh, rh)
            },
            Fit::Fill => (rw, rh),
            Fit::FitWidth => (rw, rw),
            Fit::FitHeight => (rh, rh),
            Fit::Unscaled => (one, one),
        };
        Some(
            LayoutResult {
                scale_x: sx,
                scale_y: sy,
                translate_x: shift(container_w, content_w, sx, self.anchor.x, self.anchor.den),
                translate_y: shift(container_h, content_h, sy, self.anchor.y, self.anchor.den),
            },
        )
    }
}

/// What each policy promises of the scaled content: under `Contain` it
/// fits inside the container on both axes, under `Cover` it reaches the
/// container's edges on both axes, under `Fill` each scale is exactly the
/// container's length over the content's, and `Unscaled` keeps scale 1.
/// A length `len` scaled by `s` fits in `room` when
/// `len * s.num <= room * s.den`.
pub proof fn lemma_fit_policies(layout: Layout, cw: u32, ch: u32, w: u32, h: u32)
    requires
        w > 0,
        h > 0,
    ensures
        ({
            let r = layout_of(layout, cw, ch, w, h);
            &&& layout.fit == Fit::Contain ==> {
                &&& w * r.scale_x.num <= cw * r.scale_x.den
                &&& h * r.scale_y.num <= ch * r.scale_y.den
            }
            &&& layout.fit == Fit::Cover ==> {
                &&& w * r.scale_x.num >= cw * r.scale_x.den
                &&& h * r.scale_y.num >= ch * r.scale_y.den
            }
            &&& layout.fit == Fit::Fill ==> {
                &&& r.scale_x.has_value(cw as int, w as int)
                &&& r.scale_y.has_value(ch as int, h as int)
            }
            &&& layout.fit == Fit::Unscaled ==> {
                &&& r.scale_x.has_value(1, 1)
                &&& r.scale_y.has_value(1, 1)
            }
        }),
{
    let a = cw as int;
    let b = ch as int;
    let x = w as int;
    let y = h as int;
    assert(x * a == a * x && y * b == b * y) by (nonlinear_arith);
    assert(y * a == a * y && x * b == b * x) by (nonlinear_arith);
}

} // verus!
