use rustracer::scene::geo::{
    key_of_bits, Key, EPSILON, INFINITY, ONE, ONE_PLUS_EPSILON, ZERO,
};
use rustracer::scene::objects::{
    sphere_distance, sphere_in_reach, triangle_distance, TriangleSolution,
};

const EPS: f32 = 0.0000001;

fn key(x: f32) -> Key {
    key_of_bits(x.to_bits()).unwrap()
}

fn solution(t: f32, b1: f32, b2: f32) -> TriangleSolution {
    TriangleSolution { t: key(t), b1: key(b1), b2: key(b2), b1_plus_b2: key(b1 + b2) }
}

#[test]
fn keys_of_the_marks() {
    assert_eq!(key(0.0), ZERO);
    assert_eq!(key(-0.0), ZERO);
    assert_eq!(key(EPS), EPSILON);
    assert_eq!(key(1.0), ONE);
    assert_eq!(key(1.0 + EPS), ONE_PLUS_EPSILON);
    assert_eq!(key(f32::INFINITY), INFINITY);
    assert_eq!(key(f32::NEG_INFINITY), -INFINITY);
    assert_eq!(key(-1.0), -ONE);
}

#[test]
fn what_is_no_number_has_no_key() {
    assert_eq!(key_of_bits(f32::NAN.to_bits()), None);
    assert_eq!(key_of_bits((-f32::NAN).to_bits()), None);
    assert_eq!(key_of_bits(0x7f80_0001), None);
    assert_eq!(key_of_bits(0xffff_ffff), None);
    assert_eq!(key_of_bits(0x7f80_0000), Some(INFINITY));
    assert_eq!(key_of_bits(0xff80_0000), Some(-INFINITY));
}

#[test]
fn keys_order_as_numbers_do() {
    let numbers = [
        f32::NEG_INFINITY,
        f32::MIN,
        -1.0e10,
        -100.0,
        -1.5,
        -1.0,
        -EPS,
        -f32::MIN_POSITIVE,
        -1.0e-45,
        0.0,
        1.0e-45,
        f32::MIN_POSITIVE,
        EPS,
        0.5,
        1.0,
        1.0 + EPS,
        1.0 + 2.0 * EPS,
        68.0,
        100.0,
        1.0e10,
        f32::MAX,
        f32::INFINITY,
    ];
    for a in numbers.iter() {
        for b in numbers.iter() {
            assert_eq!(a < b, key(*a) < key(*b));
            assert_eq!(a == b, key(*a) == key(*b));
        }
        assert_eq!(key(-*a), -key(*a));
    }
}

#[test]
fn a_ray_through_the_inside_hits_the_triangle() {
    assert_eq!(triangle_distance(solution(20.0, 0.25, 0.5)), Some(key(20.0)));
}

#[test]
fn a_hit_at_a_vertex_counts() {
    assert_eq!(triangle_distance(solution(20.0, 0.0, 0.0)), Some(key(20.0)));
    assert_eq!(triangle_distance(solution(20.0, 1.0, 0.0)), Some(key(20.0)));
    assert_eq!(triangle_distance(solution(20.0, 0.0, 1.0)), Some(key(20.0)));
    assert_eq!(triangle_distance(solution(20.0, -0.0, 0.0)), Some(key(20.0)));
}

#[test]
fn a_hit_on_an_edge_counts() {
    assert_eq!(triangle_distance(solution(20.0, 0.5, 0.5)), Some(key(20.0)));
    assert_eq!(triangle_distance(solution(20.0, 0.25, 0.75)), Some(key(20.0)));
    assert_eq!(triangle_distance(solution(20.0, 0.5, 0.0)), Some(key(20.0)));
    let on_the_edge =
        TriangleSolution { t: key(20.0), b1: key(0.5), b2: key(0.5), b1_plus_b2: key(1.0 + EPS) };
    assert_eq!(triangle_distance(on_the_edge), Some(key(20.0)));
}

#[test]
fn a_hit_just_outside_is_a_miss() {
    let outside = TriangleSolution {
        t: key(20.0),
        b1: key(0.5),
        b2: key(0.5),
        b1_plus_b2: key(1.0 + 2.0 * EPS),
    };
    assert_eq!(triangle_distance(outside), None);
    assert_eq!(triangle_distance(solution(20.0, 0.75, 0.5)), None);
    assert_eq!(triangle_distance(solution(20.0, -EPS, 0.5)), None);
    assert_eq!(triangle_distance(solution(20.0, 0.5, -EPS)), None);
    assert_eq!(triangle_distance(solution(20.0, 1.0 + EPS, -0.5)), None);
    assert_eq!(triangle_distance(solution(20.0, -0.5, 1.0 + EPS)), None);
}

#[test]
fn a_triangle_at_the_origin_or_behind_is_a_miss() {
    assert_eq!(triangle_distance(solution(EPS, 0.25, 0.5)), None);
    assert_eq!(triangle_distance(solution(0.0, 0.25, 0.5)), None);
    assert_eq!(triangle_distance(solution(-20.0, 0.25, 0.5)), None);
    assert_eq!(triangle_distance(solution(2.0 * EPS, 0.25, 0.5)), Some(key(2.0 * EPS)));
}

#[test]
fn a_ray_that_grazes_a_sphere_hits_it() {
    // centre (3, 0, -4), radius 3, ray from the origin down the z axis
    let (adj, l2, radius2): (f32, f32, f32) = (4.0, 25.0, 9.0);
    let d2 = l2 - adj * adj;
    assert!(d2 == radius2);
    assert!(sphere_in_reach(key(d2), key(radius2)));
    let thc = (radius2 - d2).sqrt();
    assert_eq!(sphere_distance(key(adj - thc), key(adj + thc)), Some(key(adj)));
}

#[test]
fn a_ray_that_passes_a_sphere_misses_it() {
    assert!(!sphere_in_reach(key(9.000001), key(9.0)));
    assert!(sphere_in_reach(key(8.999999), key(9.0)));
    assert!(sphere_in_reach(key(0.0), key(9.0)));
}

#[test]
fn a_sphere_is_hit_where_the_ray_enters_it() {
    assert_eq!(sphere_distance(key(2.0), key(6.0)), Some(key(2.0)));
    assert_eq!(sphere_distance(key(0.0), key(6.0)), Some(key(0.0)));
    assert_eq!(sphere_distance(key(6.0), key(2.0)), Some(key(2.0)));
}

#[test]
fn from_inside_a_sphere_is_hit_where_the_ray_leaves_it() {
    assert_eq!(sphere_distance(key(-2.0), key(6.0)), Some(key(6.0)));
    assert_eq!(sphere_distance(key(-EPS), key(EPS)), Some(key(EPS)));
    assert_eq!(sphere_distance(key(-2.0), key(0.0)), Some(key(0.0)));
}

#[test]
fn a_sphere_behind_the_ray_is_missed() {
    assert_eq!(sphere_distance(key(-6.0), key(-2.0)), None);
    assert_eq!(sphere_distance(key(-6.0), key(-EPS)), None);
}

#[test]
fn sphere_in_front_of_the_camera() {
    // centre (0, 0, -4), radius 2, seen from the origin
    let radius2: f32 = 4.0;
    let (adj, l2): (f32, f32) = (4.0, 16.0);
    let d2 = l2 - adj * adj;
    assert!(sphere_in_reach(key(d2), key(radius2)));
    let thc = (radius2 - d2).sqrt();
    assert_eq!(sphere_distance(key(adj - thc), key(adj + thc)), Some(key(2.0)));
    // the same sphere along the direction (3, 0, -4) / 5
    let adj: f32 = 16.0 / 5.0;
    let d2 = l2 - adj * adj;
    assert!(!sphere_in_reach(key(d2), key(radius2)));
}
