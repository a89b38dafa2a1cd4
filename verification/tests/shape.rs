use lightmarch::scalar::Scalar;
use lightmarch::shape::{box_parts, is_enclosed, segment_parameter, triangle_sdf, Edge};

fn s(x: f64) -> Scalar {
    Scalar::from_bits(x.to_bits())
}

fn f(x: Scalar) -> f64 {
    f64::from_bits(x.to_bits())
}

fn segment_distance(x: f64, y: f64, ax: f64, ay: f64, bx: f64, by: f64) -> f64 {
    let (vx, vy, ux, uy) = (x - ax, y - ay, bx - ax, by - ay);
    let t = f(segment_parameter(s((vx * ux + vy * uy) / (ux * ux + uy * uy))));
    let (dx, dy) = (vx - ux * t, vy - uy * t);
    (dx * dx + dy * dy).sqrt()
}

fn edge(x: f64, y: f64, ax: f64, ay: f64, bx: f64, by: f64) -> Edge {
    Edge {
        distance: s(segment_distance(x, y, ax, ay, bx, by)),
        left: s((bx - ax) * (y - ay)),
        right: s((by - ay) * (x - ax)),
    }
}

fn triangle(x: f64, y: f64, p: [(f64, f64); 3]) -> f64 {
    let ab = edge(x, y, p[0].0, p[0].1, p[1].0, p[1].1);
    let bc = edge(x, y, p[1].0, p[1].1, p[2].0, p[2].1);
    let ca = edge(x, y, p[2].0, p[2].1, p[0].0, p[0].1);
    f(triangle_sdf(ab, bc, ca))
}

fn box_distance(x: f64, y: f64, cx: f64, cy: f64, theta: f64, sx: f64, sy: f64) -> f64 {
    let (c, z) = (theta.cos(), theta.sin());
    let dx = ((x - cx) * c + (y - cy) * z).abs() - sx;
    let dy = ((y - cy) * c - (x - cx) * z).abs() - sy;
    let parts = box_parts(s(dx), s(dy));
    let (ax, ay) = (f(parts.beyond_x), f(parts.beyond_y));
    f(parts.within) + (ax * ax + ay * ay).sqrt()
}

const RIGHT_ANGLED: [(f64, f64); 3] = [(0.0, 0.0), (4.0, 0.0), (0.0, 3.0)];

#[test]
fn segment_parameter_holds_the_quotient_to_the_segment() {
    assert_eq!(f(segment_parameter(s(0.5))), 0.5);
    assert_eq!(f(segment_parameter(s(0.0))), 0.0);
    assert_eq!(f(segment_parameter(s(1.0))), 1.0);
    assert_eq!(f(segment_parameter(s(-3.0))), 0.0);
    assert_eq!(f(segment_parameter(s(7.0))), 1.0);
    assert_eq!(f(segment_parameter(s(f64::INFINITY))), 1.0);
    assert_eq!(f(segment_parameter(s(f64::NEG_INFINITY))), 0.0);
}

#[test]
fn segment_parameter_of_no_number_is_one() {
    assert_eq!(f(segment_parameter(s(f64::NAN))), 1.0);
    assert_eq!(f(segment_parameter(s(0.0 / 0.0))), 1.0);
}

#[test]
fn segment_parameter_agrees_with_binary64() {
    for q in [-2.5, -0.0, 0.0, 1e-300, 0.25, 0.999, 1.0, 1.0001, 3.0, f64::NAN] {
        let expected = f64::max(f64::min(q, 1.0), 0.0);
        assert!(f(segment_parameter(s(q))) == expected, "{:?}", q);
    }
}

#[test]
fn segment_without_length_measures_to_its_point() {
    assert_eq!(segment_distance(3.0, 4.0, 0.0, 0.0, 0.0, 0.0), 5.0);
    assert_eq!(segment_distance(1.0, 1.0, 1.0, 1.0, 1.0, 1.0), 0.0);
}

#[test]
fn segment_distance_on_chosen_points() {
    assert_eq!(segment_distance(2.0, 3.0, 0.0, 0.0, 4.0, 0.0), 3.0);
    assert_eq!(segment_distance(-3.0, 4.0, 0.0, 0.0, 4.0, 0.0), 5.0);
    assert_eq!(segment_distance(7.0, 4.0, 0.0, 0.0, 4.0, 0.0), 5.0);
    assert_eq!(segment_distance(1.0, 0.0, 0.0, 0.0, 4.0, 0.0), 0.0);
}

#[test]
fn triangle_is_negative_within() {
    assert_eq!(triangle(1.0, 0.5, RIGHT_ANGLED), -0.5);
    assert_eq!(triangle(0.5, 0.25, RIGHT_ANGLED), -0.25);
    assert_eq!(triangle(0.25, 2.0, RIGHT_ANGLED), -0.25);
}

#[test]
fn triangle_is_positive_outside() {
    assert_eq!(triangle(2.0, -2.0, RIGHT_ANGLED), 2.0);
    assert_eq!(triangle(-3.0, -4.0, RIGHT_ANGLED), 5.0);
    assert_eq!(triangle(-1.0, 1.0, RIGHT_ANGLED), 1.0);
}

#[test]
fn triangle_is_zero_on_its_boundary() {
    assert_eq!(triangle(2.0, 0.0, RIGHT_ANGLED), 0.0);
    assert_eq!(triangle(0.0, 0.0, RIGHT_ANGLED), 0.0);
    assert_eq!(triangle(0.0, 1.5, RIGHT_ANGLED), 0.0);
}

#[test]
fn triangle_sign_does_not_depend_on_the_winding() {
    let clockwise = [RIGHT_ANGLED[0], RIGHT_ANGLED[2], RIGHT_ANGLED[1]];
    for (x, y) in [(1.0, 0.5), (0.5, 0.25), (2.0, -2.0), (-3.0, -4.0), (3.0, 3.0)] {
        assert_eq!(triangle(x, y, RIGHT_ANGLED), triangle(x, y, clockwise));
    }
    assert_eq!(triangle(1.0, 0.5, clockwise), -0.5);
}

#[test]
fn is_enclosed_wants_one_side_of_all_three_edges() {
    let left = Edge { distance: s(1.0), left: s(2.0), right: s(1.0) };
    let right = Edge { distance: s(1.0), left: s(1.0), right: s(2.0) };
    let on = Edge { distance: s(0.0), left: s(1.0), right: s(1.0) };
    assert!(is_enclosed(&left, &left, &left));
    assert!(is_enclosed(&right, &right, &right));
    assert!(!is_enclosed(&left, &right, &left));
    assert!(!is_enclosed(&right, &right, &left));
    assert!(!is_enclosed(&left, &left, &on));
    assert!(!is_enclosed(&on, &on, &on));
}

#[test]
fn triangle_sdf_takes_the_nearest_edge() {
    let near = Edge { distance: s(0.25), left: s(2.0), right: s(1.0) };
    let far = Edge { distance: s(0.75), left: s(2.0), right: s(1.0) };
    let away = Edge { distance: s(0.5), left: s(1.0), right: s(2.0) };
    assert_eq!(f(triangle_sdf(far, near, far)), -0.25);
    assert_eq!(f(triangle_sdf(far, far, near)), -0.25);
    assert_eq!(f(triangle_sdf(near, far, far)), -0.25);
    assert_eq!(f(triangle_sdf(far, away, far)), 0.5);
}

#[test]
fn box_parts_within_the_box() {
    let parts = box_parts(s(-0.05), s(-0.25));
    assert_eq!(f(parts.within), -0.05);
    assert_eq!(f(parts.beyond_x), 0.0);
    assert_eq!(f(parts.beyond_y), 0.0);
    let parts = box_parts(s(-0.5), s(-0.25));
    assert_eq!(f(parts.within), -0.25);
}

#[test]
fn box_parts_outside_the_box() {
    let parts = box_parts(s(0.125), s(-0.25));
    assert_eq!((f(parts.within), f(parts.beyond_x), f(parts.beyond_y)), (0.0, 0.125, 0.0));
    let parts = box_parts(s(-0.125), s(0.5));
    assert_eq!((f(parts.within), f(parts.beyond_x), f(parts.beyond_y)), (0.0, 0.0, 0.5));
    let parts = box_parts(s(3.0), s(4.0));
    assert_eq!((f(parts.within), f(parts.beyond_x), f(parts.beyond_y)), (0.0, 3.0, 4.0));
}

#[test]
fn box_parts_agree_with_binary64() {
    let values = [-2.0, -0.05, -0.0, 0.0, 1e-6, 0.25, 5.0, f64::NAN];
    for dx in values {
        for dy in values {
            let parts = box_parts(s(dx), s(dy));
            assert!(f(parts.within) == f64::min(f64::max(dx, dy), 0.0));
            assert!(f(parts.beyond_x) == if dx > 0.0 { dx } else { 0.0 });
            assert!(f(parts.beyond_y) == if dy > 0.0 { dy } else { 0.0 });
        }
    }
}

#[test]
fn box_distance_at_the_center_is_the_smaller_half_extent_negated() {
    assert_eq!(box_distance(0.4, 0.25, 0.4, 0.25, 0.0, 0.05, 0.25), -0.05);
    assert_eq!(box_distance(0.0, 0.0, 0.0, 0.0, 0.3, 2.0, 0.5), -0.5);
    assert_eq!(box_distance(1.0, 2.0, 1.0, 2.0, 2.0 * std::f64::consts::PI / 4.0, 0.25, 0.75), -0.25);
    assert_eq!(box_distance(0.4, 0.9, 0.4, 0.9, 2.0 * std::f64::consts::PI / 20.0, 0.36, 0.05), -0.05);
}

#[test]
fn box_distance_grows_linearly_away_from_a_face() {
    assert_eq!(box_distance(2.0, 0.0, 0.0, 0.0, 0.0, 2.0, 1.0), 0.0);
    assert_eq!(box_distance(3.0, 0.0, 0.0, 0.0, 0.0, 2.0, 1.0), 1.0);
    assert_eq!(box_distance(4.0, 0.0, 0.0, 0.0, 0.0, 2.0, 1.0), 2.0);
    assert_eq!(box_distance(6.0, 0.0, 0.0, 0.0, 0.0, 2.0, 1.0), 4.0);
    assert_eq!(box_distance(0.0, -3.5, 0.0, 0.0, 0.0, 2.0, 1.0), 2.5);
    assert_eq!(box_distance(5.0, 5.0, 0.0, 0.0, 0.0, 2.0, 1.0), 5.0);
    assert_eq!(box_distance(1.0, 0.0, 0.0, 0.0, 0.0, 2.0, 1.0), -1.0);
}
