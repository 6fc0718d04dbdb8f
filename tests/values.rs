use rgx::color::{Bgra8, ParseColorError, Rgba8};
use rgx::math::{Point2, Vector2};
use rgx::rect::Rect;

#[test]
fn rgba8_new_keeps_channels() {
    let c = Rgba8::new(1, 2, 3, 4);
    assert_eq!((c.r, c.g, c.b, c.a), (1, 2, 3, 4));
}

#[test]
fn rgba8_named_colors() {
    assert_eq!(Rgba8::red(), Rgba8::new(0xff, 0, 0, 0xff));
    assert_eq!(Rgba8::green(), Rgba8::new(0, 0xff, 0, 0xff));
    assert_eq!(Rgba8::blue(), Rgba8::new(0, 0, 0xff, 0xff));
    assert_eq!(Rgba8::black(), Rgba8::new(0, 0, 0, 0xff));
    assert_eq!(Rgba8::white(), Rgba8::new(0xff, 0xff, 0xff, 0xff));
    assert_eq!(Rgba8::transparent(), Rgba8::new(0, 0, 0, 0));
}

#[test]
fn rgba8_from_u32_low_byte_is_red() {
    let c = Rgba8::from(0x4433_2211u32);
    assert_eq!(c, Rgba8::new(0x11, 0x22, 0x33, 0x44));
}

#[test]
fn rgba8_to_string_is_lower_hex() {
    assert_eq!(Rgba8::new(0xff, 0x00, 0x7f, 0x0a).to_string(), "#ff007f0a");
    assert_eq!(Rgba8::transparent().to_string(), "#00000000");
}

#[test]
fn rgba8_from_str_reads_code() {
    assert_eq!(Rgba8::from_str("#ff8000"), Ok(Rgba8::new(0xff, 0x80, 0x00, 0xff)));
    assert_eq!(Rgba8::from_str("#A0b1C2"), Ok(Rgba8::new(0xa0, 0xb1, 0xc2, 0xff)));
}

#[test]
fn rgba8_from_str_errors() {
    assert_eq!(Rgba8::from_str("#fff"), Err(ParseColorError::InvalidLength));
    assert_eq!(Rgba8::from_str(""), Err(ParseColorError::InvalidLength));
    assert_eq!(Rgba8::from_str("x123456"), Err(ParseColorError::MissingHash));
    assert_eq!(Rgba8::from_str("#12345g"), Err(ParseColorError::InvalidDigit));
}

#[test]
fn rgba8_string_round_trip_of_opaque_color() {
    let c = Rgba8::new(0x12, 0xab, 0xef, 0xff);
    let s = c.to_string();
    assert_eq!(Rgba8::from_str(&s[0..7]), Ok(c));
}

#[test]
fn bgra8_swaps_red_and_blue_places() {
    let c = Rgba8::new(1, 2, 3, 4);
    let d = Bgra8::from(c);
    assert_eq!(d, Bgra8::new(3, 2, 1, 4));
    let back: Rgba8 = d.into();
    assert_eq!(back, c);
}

#[test]
fn rect_normalized_examples() {
    assert_eq!(Rect::new(3, 3, 1, 1).normalized(), Rect::new(1, 1, 3, 3));
    assert_eq!(Rect::new(-1, -1, 1, 1).normalized(), Rect::new(-1, -1, 1, 1));
}

#[test]
fn rect_normalized_is_idempotent_and_keeps_width() {
    let r: Rect<i32> = Rect::new(7, -2, -5, 9);
    let n = r.normalized();
    assert_eq!(n.normalized(), n);
    assert_eq!(n.width(), r.width());
    assert_eq!(n.width(), 12);
    assert_eq!(n.height(), r.height());
    assert_eq!(n.height(), 11);
}

#[test]
fn rect_height_of_negative_origin() {
    let r: Rect<i32> = Rect::origin(-6, -6);
    assert_eq!(r.height(), 6);
    assert_eq!(r.width(), 6);
}

#[test]
fn rect_min_max() {
    let r: Rect<i32> = Rect::new(0, 0, 1, -1);
    assert_eq!(r.min(), Point2::new(0, -1));
    let r: Rect<i32> = Rect::origin(-1, 1);
    assert_eq!(r.max(), Point2::new(0, 1));
}

#[test]
fn rect_center() {
    let r: Rect<i32> = Rect::origin(8, 8);
    assert_eq!(r.center(), Point2::new(4, 4));
    let r: Rect<i32> = Rect::new(0, 0, -8, -8);
    assert_eq!(r.center(), Point2::new(-4, -4));
}

#[test]
fn rect_radius_is_half_the_larger_side() {
    let r: Rect<i32> = Rect::new(0, 0, 10, 4);
    assert_eq!(r.radius(), 5);
    let r: Rect<i32> = Rect::new(0, 0, 3, -7);
    assert_eq!(r.radius(), 3);
}

#[test]
fn rect_clamped_examples() {
    let bounds: Rect<i32> = Rect::new(0, 0, 3, 3);
    assert_eq!(Rect::new(1, 1, 6, 6).clamped(bounds), Rect::new(1, 1, 3, 3));
    assert_eq!(Rect::new(1, 1, 2, 2).clamped(bounds), Rect::new(1, 1, 2, 2));
    assert_eq!(Rect::new(-1, -1, 3, 3).clamped(bounds), Rect::new(0, 0, 3, 3));
}

#[test]
fn rect_clamped_lies_within_bounds() {
    let bounds: Rect<i32> = Rect::new(2, 2, 10, 8);
    let c = Rect::new(-5, 3, 20, 30).clamped(bounds);
    assert!(bounds.x1 <= c.x1 && bounds.y1 <= c.y1 && c.x2 <= bounds.x2 && c.y2 <= bounds.y2);
    assert_eq!(c, Rect::new(2, 3, 10, 8));
}

#[test]
fn rect_clamped_disjoint_rect_collapses_inside_bounds() {
    let bounds: Rect<i32> = Rect::new(0, 0, 3, 3);
    let c = Rect::new(5, 5, 6, 6).clamped(bounds);
    assert_eq!(c, Rect::new(3, 3, 3, 3));
    assert!(bounds.x1 <= c.x1 && c.x1 <= c.x2 && c.x2 <= bounds.x2);
    let c = Rect::new(-9, -9, -4, 1).clamped(bounds);
    assert_eq!(c, Rect::new(0, 0, 0, 1));
}

#[test]
fn rect_contains_corners() {
    let r: Rect<i32> = Rect::new(-2, 1, 4, 5);
    assert!(r.contains(Point2::new(-2, 1)));
    assert!(r.contains(Point2::new(4, 1)));
    assert!(r.contains(Point2::new(-2, 5)));
    assert!(r.contains(Point2::new(4, 5)));
}

#[test]
fn rect_excludes_points_one_beyond_an_edge() {
    let r: Rect<i32> = Rect::new(4, 5, -2, 1);
    assert!(!r.contains(Point2::new(-3, 3)));
    assert!(!r.contains(Point2::new(5, 3)));
    assert!(!r.contains(Point2::new(0, 0)));
    assert!(!r.contains(Point2::new(0, 6)));
    assert!(r.contains(Point2::new(0, 3)));
}

#[test]
fn rect_with_reversed_corners_contains_its_corners() {
    let r: Rect<i32> = Rect::new(4, 5, -2, 1);
    assert!(r.contains(Point2::new(4, 5)));
    assert!(r.contains(Point2::new(-2, 1)));
    assert!(r.contains(Point2::new(4, 1)));
    assert!(r.contains(Point2::new(-2, 5)));
}

#[test]
fn rect_clamped_to_reversed_bounds_uses_their_span() {
    let r: Rect<i32> = Rect::new(3, 3, 0, 0);
    assert_eq!(r.clamped(r), r);
    assert_eq!(Rect::new(-1, 2, 9, 1).clamped(Rect::new(3, 3, 0, 0)), Rect::new(0, 2, 3, 1));
}

#[test]
fn rect_intersects() {
    let a: Rect<i32> = Rect::new(0, 0, 4, 4);
    assert!(a.intersects(Rect::new(3, 3, 6, 6)));
    assert!(!a.intersects(Rect::new(4, 0, 8, 4)));
}

#[test]
fn rect_zero_empty_scale_translate() {
    let z: Rect<i32> = Rect::zero();
    assert!(z.is_zero());
    assert!(z.is_empty());
    let r: Rect<i32> = Rect::new(1, 2, 3, 4);
    assert!(!r.is_empty());
    assert!(!r.is_zero());
    assert_eq!(r.scale(2, 3), Rect::new(1, 2, 6, 12));
    assert_eq!(r.translate(10, 20), Rect::new(10, 20, 12, 22));
}

#[test]
fn rect_vector_arithmetic() {
    let r: Rect<i32> = Rect::new(1, 2, 3, 4);
    let v = Vector2::new(10, -1);
    assert_eq!(r.add(v), Rect::new(11, 1, 13, 3));
    assert_eq!(r.sub(v), Rect::new(-9, 3, -7, 5));
    assert_eq!(r.mul(3), Rect::new(3, 6, 9, 12));
    let mut m = r;
    m.add_assign(v);
    assert_eq!(m, Rect::new(11, 1, 13, 3));
    m.sub_assign(v);
    assert_eq!(m, r);
}

#[test]
fn rect_map_applies_to_each_coordinate() {
    let r: Rect<i32> = Rect::new(1, 2, 3, 4);
    let m = r.map(|v| (v as i64) * 100);
    assert_eq!(m, Rect::new(100i64, 200, 300, 400));
}

#[test]
fn rect_u32_extent() {
    let r: Rect<u32> = Rect::new(10, 2, 4, 9);
    assert_eq!(r.width(), 6);
    assert_eq!(r.height(), 7);
}
