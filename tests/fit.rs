use l0ttie::fit::{
    Anchor, Fit, Layout, LayoutResult, FIT_CONTAIN, FIT_COVER, FIT_FILL, FIT_HEIGHT, FIT_NONE,
    FIT_WIDTH,
};
use l0ttie::ratio::Ratio;

fn value_is(r: Ratio, num: i128, den: i128) -> bool {
    r.den > 0 && r.num * den == num * r.den
}

fn layout(fit: Fit) -> Layout {
    Layout { fit, anchor: Anchor::center() }
}

#[test]
fn contain_centres_square_content_in_wide_frame() {
    let r = layout(Fit::Contain).compute(200, 100, 100, 100).unwrap();
    assert!(value_is(r.scale_x, 1, 1));
    assert!(value_is(r.scale_y, 1, 1));
    assert!(value_is(r.translate_x, 50, 1));
    assert!(value_is(r.translate_y, 0, 1));
}

#[test]
fn contain_uses_smaller_ratio() {
    let r = layout(Fit::Contain).compute(200, 200, 100, 50).unwrap();
    assert!(value_is(r.scale_x, 2, 1));
    assert!(value_is(r.scale_y, 2, 1));
    assert!(value_is(r.translate_x, 0, 1));
    assert!(value_is(r.translate_y, 50, 1));
}

#[test]
fn cover_uses_larger_ratio_and_overflows() {
    let r = layout(Fit::Cover).compute(200, 100, 100, 100).unwrap();
    assert!(value_is(r.scale_x, 2, 1));
    assert!(value_is(r.scale_y, 2, 1));
    assert!(value_is(r.translate_x, 0, 1));
    assert!(value_is(r.translate_y, -50, 1));
}

#[test]
fn fill_scales_axes_independently() {
    let r = layout(Fit::Fill).compute(300, 100, 200, 400).unwrap();
    assert!(value_is(r.scale_x, 3, 2));
    assert!(value_is(r.scale_y, 1, 4));
    assert!(value_is(r.translate_x, 0, 1));
    assert!(value_is(r.translate_y, 0, 1));
}

#[test]
fn fit_width_and_height_follow_one_axis() {
    let w = layout(Fit::FitWidth).compute(300, 100, 200, 400).unwrap();
    assert!(value_is(w.scale_x, 3, 2));
    assert!(value_is(w.scale_y, 3, 2));
    assert!(value_is(w.translate_y, -250, 1));
    let h = layout(Fit::FitHeight).compute(300, 100, 200, 400).unwrap();
    assert!(value_is(h.scale_x, 1, 4));
    assert!(value_is(h.scale_y, 1, 4));
    assert!(value_is(h.translate_x, 125, 1));
}

#[test]
fn unscaled_keeps_size_whatever_the_container() {
    for (cw, ch, w, h) in [(200, 100, 100, 100), (1, 1, 4000, 3000), (640, 480, 640, 480)] {
        let r = layout(Fit::Unscaled).compute(cw, ch, w, h).unwrap();
        assert_eq!(r.scale_x, Ratio { num: 1, den: 1 });
        assert_eq!(r.scale_y, Ratio { num: 1, den: 1 });
    }
    let r = layout(Fit::Unscaled).compute(100, 100, 300, 100).unwrap();
    assert!(value_is(r.translate_x, -100, 1));
}

#[test]
fn contain_never_exceeds_and_cover_never_leaves_gaps() {
    let sizes = [(200u32, 100u32), (100, 200), (33, 77), (640, 480), (1, 1), (1920, 1080)];
    for (cw, ch) in sizes {
        for (w, h) in sizes {
            let c = layout(Fit::Contain).compute(cw, ch, w, h).unwrap();
            assert!(w as i128 * c.scale_x.num <= cw as i128 * c.scale_x.den);
            assert!(h as i128 * c.scale_y.num <= ch as i128 * c.scale_y.den);
            let v = layout(Fit::Cover).compute(cw, ch, w, h).unwrap();
            assert!(w as i128 * v.scale_x.num >= cw as i128 * v.scale_x.den);
            assert!(h as i128 * v.scale_y.num >= ch as i128 * v.scale_y.den);
            let f = layout(Fit::Fill).compute(cw, ch, w, h).unwrap();
            assert!(value_is(f.scale_x, cw as i128, w as i128));
            assert!(value_is(f.scale_y, ch as i128, h as i128));
        }
    }
}

#[test]
fn anchor_corners_pin_content() {
    let top_left = Layout { fit: Fit::Contain, anchor: Anchor::new(0, 0, 1).unwrap() };
    let r = top_left.compute(200, 100, 100, 100).unwrap();
    assert!(value_is(r.translate_x, 0, 1));
    let bottom_right = Layout { fit: Fit::Contain, anchor: Anchor::new(1, 1, 1).unwrap() };
    let r = bottom_right.compute(200, 100, 100, 100).unwrap();
    assert!(value_is(r.translate_x, 100, 1));
    assert!(value_is(r.translate_y, 0, 1));
    let third = Layout { fit: Fit::Unscaled, anchor: Anchor::new(1, 2, 3).unwrap() };
    let r = third.compute(100, 100, 40, 10).unwrap();
    assert!(value_is(r.translate_x, 20, 1));
    assert!(value_is(r.translate_y, 60, 1));
}

#[test]
fn anchor_outside_unit_square_is_refused() {
    assert!(Anchor::new(3, 1, 2).is_none());
    assert!(Anchor::new(1, 3, 2).is_none());
    assert!(Anchor::new(0, 0, 0).is_none());
    assert_eq!(Anchor::new(2, 0, 2), Some(Anchor { x: 2, y: 0, den: 2 }));
    assert_eq!(Anchor::center(), Anchor { x: 1, y: 1, den: 2 });
}

#[test]
fn empty_content_has_no_layout() {
    assert!(layout(Fit::Contain).compute(200, 100, 0, 100).is_none());
    assert!(layout(Fit::Fill).compute(200, 100, 100, 0).is_none());
    assert!(layout(Fit::Unscaled).compute(0, 0, 0, 0).is_none());
    assert!(layout(Fit::Contain).compute(0, 0, 10, 10).is_some());
}

#[test]
fn largest_sizes_compute_exactly() {
    let m = u32::MAX;
    let r: LayoutResult = Layout { fit: Fit::Fill, anchor: Anchor::new(m, m, m).unwrap() }
        .compute(m, 0, 1, m)
        .unwrap();
    assert!(value_is(r.scale_x, m as i128, 1));
    assert!(value_is(r.scale_y, 0, 1));
    assert!(value_is(r.translate_x, 0, 1));
    assert!(value_is(r.translate_y, 0, 1));
    let r = Layout { fit: Fit::Unscaled, anchor: Anchor::new(m, 0, m).unwrap() }
        .compute(0, 0, m, m)
        .unwrap();
    assert!(value_is(r.translate_x, -(m as i128), 1));
}

#[test]
fn default_layout_is_contain_centred() {
    assert_eq!(Layout::new(), Layout { fit: Fit::Contain, anchor: Anchor::center() });
}

#[test]
fn fit_names_round_trip() {
    let all = [
        (Fit::Contain, FIT_CONTAIN, "contain"),
        (Fit::Fill, FIT_FILL, "fill"),
        (Fit::Cover, FIT_COVER, "cover"),
        (Fit::FitWidth, FIT_WIDTH, "fit-width"),
        (Fit::FitHeight, FIT_HEIGHT, "fit-height"),
        (Fit::Unscaled, FIT_NONE, "none"),
    ];
    for (fit, name, text) in all {
        assert_eq!(name, text);
        assert_eq!(Fit::from(name), fit);
        assert_eq!(<&str>::from(fit), name);
    }
    assert_eq!(Fit::from("stretch"), Fit::Contain);
    assert_eq!(Fit::from(""), Fit::Contain);
}
