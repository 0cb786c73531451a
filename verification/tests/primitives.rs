//! Vector and color arithmetic on concrete values.

use rt::color::Color;
use rt::fixed::FX_ONE;
use rt::vector::Point;

const S: i64 = FX_ONE;

#[test]
fn val_full_intensity_is_255() {
    assert_eq!(Color(S, S, S).val(), (255, 255, 255));
}

#[test]
fn val_zero_is_0() {
    assert_eq!(Color(0, 0, 0).val(), (0, 0, 0));
}

#[test]
fn val_saturates_above_full_intensity() {
    // Channels above 1.0 are clamped to 255, not wrapped.
    assert_eq!(Color(2 * S, 3 * S, S).val(), (255, 255, 255));
}

#[test]
fn val_clamps_negative_to_zero() {
    assert_eq!(Color(-S, -1, 0).val(), (0, 0, 0));
}

#[test]
fn val_truncates_toward_zero() {
    // 0.5 * 255 = 127.5, truncated to 127.
    assert_eq!(Color(S / 2, 0, 0).val(), (127, 0, 0));
}

#[test]
fn light_at_unit_distance_is_identity() {
    // The falloff divisor of distance 1.0 is exactly 1.0.
    let white = Color(S, S, S);
    assert_eq!(white.light(white, S), white);
}

#[test]
fn light_at_zero_distance_passes_through() {
    // A degenerate distance applies no attenuation instead of failing.
    let white = Color(S, S, S);
    assert_eq!(white.light(white, 0), white);
    assert_eq!(white.light(white, -5 * S), white);
}

#[test]
fn light_tints_by_both_colors() {
    let red = Color(S, 0, 0);
    let cyan = Color(0, S, S);
    assert_eq!(red.light(cyan, S), Color(0, 0, 0));
}

#[test]
fn mirror_reflects_straight_back() {
    // A ray along +z mirrored about the normal (0, 0, -1) comes back
    // along -z, exactly.
    let d = Point::new(0, 0, S);
    let n = Point::new(0, 0, -S);
    assert_eq!(d.mirror(&n), Point(0, 0, -S));
}

#[test]
fn mirror_reflects_off_tilted_axis() {
    // A ray along +x mirrored about the +x axis itself reverses.
    let d = Point::new(S, 0, 0);
    let n = Point::new(S, 0, 0);
    assert_eq!(d.mirror(&n), Point(-S, 0, 0));
}

#[test]
fn len_of_pythagorean_triple_is_exact() {
    assert_eq!(Point(3 * S, 4 * S, 0).len(), 5 * S);
}

#[test]
fn normalised_scales_to_unit_length() {
    assert_eq!(Point(0, 0, 2 * S).normalised(), Point(0, 0, S));
    assert_eq!(Point(0, -2 * S, 0).normalised(), Point(0, -S, 0));
}

#[test]
fn normalised_zero_vector_is_returned_unchanged() {
    assert_eq!(Point(0, 0, 0).normalised(), Point(0, 0, 0));
}

#[test]
fn dot_of_orthogonal_vectors_is_zero() {
    assert_eq!(Point(S, 0, 0).dot(&Point(0, S, 0)), 0);
}

#[test]
fn cross_follows_right_hand_rule() {
    let x = Point::new(S, 0, 0);
    let y = Point::new(0, S, 0);
    assert_eq!(x.cross(&y), Point(0, 0, S));
    assert_eq!(y.cross(&x), Point(0, 0, -S));
}

#[test]
fn add_sub_mult_div_are_componentwise() {
    let a = Point::new(S, 2 * S, 3 * S);
    let b = Point::new(S, S, S);
    assert_eq!(a.add(&b), Point(2 * S, 3 * S, 4 * S));
    assert_eq!(a.sub(&b), Point(0, S, 2 * S));
    assert_eq!(a.mult(2 * S), Point(2 * S, 4 * S, 6 * S));
    assert_eq!(a.div(2 * S), Point(S / 2, S, 3 * S / 2));
}

#[test]
fn color_new_is_black() {
    assert_eq!(Color::new(), Color(0, 0, 0));
}
