use vpype_core::complex::Point;
use vpype_core::segment::{QuadraticBezierSegment, Segment};

fn sample() -> QuadraticBezierSegment {
    QuadraticBezierSegment {
        first: Point::new(3, -4),
        control: Point::new(10, 20),
        last: Point::new(-7, 5),
    }
}

fn dist_sq(a: Point, b: Point) -> i64 {
    (a.re - b.re) * (a.re - b.re) + (a.im - b.im) * (a.im - b.im)
}

#[test]
fn translate_zero_is_identity() {
    let q = sample();
    assert_eq!(q.translate(0, 0), sample());
}

#[test]
fn scale_one_is_identity() {
    let q = sample();
    assert_eq!(q.scale(Point::new(1, 1)), sample());
}

#[test]
fn rotation_composition() {
    let q = sample();
    let twice = sample().rotate(1).rotate(2);
    assert_eq!(twice, q.rotate(3));
}

#[test]
fn full_turn_is_identity() {
    let q = sample();
    assert_eq!(q.rotate(4), sample());
}

#[test]
fn rotation_preserves_endpoint_distance() {
    let q = sample();
    let before = dist_sq(q.start(), q.end());
    let r = q.rotate(1);
    assert_eq!(dist_sq(r.start(), r.end()), before);
    let r3 = sample().rotate(3);
    assert_eq!(dist_sq(r3.start(), r3.end()), before);
}

#[test]
fn translate_additivity() {
    let stepwise = sample().translate(1, 2).translate(30, -44);
    assert_eq!(stepwise, sample().translate(31, -42));
}

#[test]
fn translate_moves_every_point() {
    let t = sample().translate(100, -1000);
    assert_eq!(t.first, Point::new(103, -1004));
    assert_eq!(t.control, Point::new(110, -980));
    assert_eq!(t.last, Point::new(93, -995));
}

#[test]
fn scale_two_one_doubles_x_keeps_y() {
    let s = sample().scale(Point::new(2, 1));
    assert_eq!(s.first, Point::new(6, -4));
    assert_eq!(s.control, Point::new(20, 20));
    assert_eq!(s.last, Point::new(-14, 5));
}

#[test]
fn scale_acts_per_axis() {
    let s = sample().scale(Point::new(-1, 3));
    assert_eq!(s.first, Point::new(-3, -12));
    assert_eq!(s.control, Point::new(-10, 60));
    assert_eq!(s.last, Point::new(7, 15));
}

#[test]
fn quarter_turn_scenario() {
    let q = QuadraticBezierSegment {
        first: Point::new(0, 0),
        control: Point::new(1, 1),
        last: Point::new(2, 2),
    };
    let r = q.rotate(1);
    assert_eq!(r.first, Point::new(0, 0));
    assert_eq!(r.control, Point::new(-1, 1));
    assert_eq!(r.last, Point::new(-2, 2));
    assert_eq!(r.start(), Point::new(0, 0));
    assert_eq!(r.end(), Point::new(-2, 2));
}

#[test]
fn rotate_matches_rotate_complex() {
    let by_angle = sample().rotate(1);
    let by_factor = sample().rotate_complex(Point::new(0, 1));
    assert_eq!(by_angle, by_factor);
}

#[test]
fn non_unit_factor_also_scales() {
    let q = sample();
    let before = dist_sq(q.start(), q.end());
    let r = q.rotate_complex(Point::new(2, 0));
    assert_eq!(r.first, Point::new(6, -8));
    assert_eq!(r.control, Point::new(20, 40));
    assert_eq!(r.last, Point::new(-14, 10));
    assert_eq!(dist_sq(r.start(), r.end()), 4 * before);
}

#[test]
fn rotate_complex_multiplies() {
    let r = sample().rotate_complex(Point::new(3, 2));
    // (3 - 4i)(3 + 2i) = 17 - 6i; (10 + 20i)(3 + 2i) = -10 + 80i;
    // (-7 + 5i)(3 + 2i) = -31 + i.
    assert_eq!(r.first, Point::new(17, -6));
    assert_eq!(r.control, Point::new(-10, 80));
    assert_eq!(r.last, Point::new(-31, 1));
}

#[test]
fn rotate_complex_composes_by_factor_product() {
    let c1 = Point::new(3, 2);
    let c2 = Point::new(1, -1);
    let product = c1.rotated_by(c2);
    assert_eq!(product, Point::new(5, -1));
    let stepwise = sample().rotate_complex(c1).rotate_complex(c2);
    assert_eq!(stepwise, sample().rotate_complex(product));
}

#[test]
fn factor_norm_scales_squared_distance() {
    let q = sample();
    let before = dist_sq(q.start(), q.end());
    // (1, 1) has squared magnitude 2.
    let r = q.rotate_complex(Point::new(1, 1));
    assert_eq!(dist_sq(r.start(), r.end()), 2 * before);
}

#[test]
fn start_and_end_read_the_endpoints() {
    let q = sample();
    assert_eq!(q.start(), Point::new(3, -4));
    assert_eq!(q.end(), Point::new(-7, 5));
}
