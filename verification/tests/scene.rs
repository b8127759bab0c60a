use rustracer::scene::cornell::{cornell_box, Paint, Wall, WallTriangle};
use rustracer::scene::mesh::{triangles, Face, MeshError};
use rustracer::scene::geo::{key_of_bits, Key};
use rustracer::scene::{RayIntersection, Scene};

const EPS: f32 = 0.0000001;

fn key(x: f32) -> Key {
    key_of_bits(x.to_bits()).unwrap()
}

fn hits(list: &[(usize, f32)]) -> Vec<RayIntersection> {
    list.iter().map(|(object, distance)| RayIntersection::new(*object, key(*distance))).collect()
}

fn energies(list: &[f32]) -> Vec<Key> {
    list.iter().map(|energy| key(*energy)).collect()
}

fn two_walls_and_a_light() -> Scene {
    Scene::new(energies(&[0.0, 0.0]), energies(&[3.0]))
}

#[test]
fn lights_are_the_emissive_primitives() {
    let scene = Scene::new(energies(&[0.0, 3.0, 0.0]), energies(&[0.5, EPS, 2.0 * EPS]));
    assert_eq!(scene.len(), 6);
    assert_eq!(scene.lights(), vec![1, 3, 5]);
    let dark = Scene::new(energies(&[0.0, EPS / 2.0]), vec![]);
    assert_eq!(dark.lights(), Vec::<usize>::new());
    let empty = Scene::new(vec![], vec![]);
    assert_eq!(empty.len(), 0);
    assert_eq!(empty.lights(), Vec::<usize>::new());
}

#[test]
fn spheres_come_after_triangles() {
    let scene = Scene::new(vec![key(0.0); 10], energies(&[1.5, 0.0, 0.0]));
    assert_eq!(scene.lights(), vec![10]);
}

#[test]
fn closest_hit_is_the_nearest() {
    let scene = two_walls_and_a_light();
    let closest = scene.intersect(&hits(&[(0, 40.0), (1, 20.5), (2, 30.0)])).unwrap();
    assert_eq!(closest.object(), 1);
    assert_eq!(closest.distance(), key(20.5));
}

#[test]
fn closest_hit_of_no_hits_is_none() {
    let scene = two_walls_and_a_light();
    assert_eq!(scene.intersect(&Vec::new()), None);
    let empty = Scene::new(vec![], vec![]);
    assert_eq!(empty.intersect(&hits(&[(0, 10.0)])), None);
}

#[test]
fn hits_at_epsilon_or_nearer_do_not_count() {
    let scene = two_walls_and_a_light();
    assert_eq!(scene.intersect(&hits(&[(0, EPS), (1, 0.0), (2, -3.0), (1, EPS / 2.0)])), None);
    let closest = scene.intersect(&hits(&[(0, EPS), (1, 2.0 * EPS), (2, -3.0)])).unwrap();
    assert_eq!((closest.object(), closest.distance()), (1, key(2.0 * EPS)));
}

#[test]
fn hits_on_unknown_primitives_do_not_count() {
    let scene = two_walls_and_a_light();
    let closest = scene.intersect(&hits(&[(3, 10.0), (2, 50.0), (7, 20.0)])).unwrap();
    assert_eq!((closest.object(), closest.distance()), (2, key(50.0)));
}

#[test]
fn of_equally_near_hits_the_first_is_returned() {
    let scene = two_walls_and_a_light();
    let closest = scene.intersect(&hits(&[(2, 30.0), (1, 20.0), (0, 20.0)])).unwrap();
    assert_eq!((closest.object(), closest.distance()), (1, key(20.0)));
}

#[test]
fn closest_hit_matches_brute_force() {
    let emittance: Vec<Key> = (0..256).map(|i| key(if i % 17 == 0 { 3.0 } else { 0.0 })).collect();
    let scene = Scene::new(Vec::new(), emittance);
    let mut state: u64 = 0x2545_f491_4f6c_dd1d;
    let mut next = move || {
        state ^= state << 13;
        state ^= state >> 7;
        state ^= state << 17;
        state
    };
    for _ in 0..10000 {
        let n = (next() % 40) as usize;
        let found: Vec<(usize, f32)> = (0..n)
            .map(|_| ((next() % 300) as usize, (next() % 2000) as f32 / 100.0 - 1.0))
            .collect();
        let mut best: Option<(usize, f32)> = None;
        for (object, distance) in found.iter() {
            if *object < 256 && *distance > EPS {
                if best.map_or(true, |b| *distance < b.1) {
                    best = Some((*object, *distance));
                }
            }
        }
        let closest = scene.intersect(&hits(&found));
        assert_eq!(closest.map(|c| (c.object(), c.distance())), best.map(|b| (b.0, key(b.1))));
        let max = (next() % 2000) as f32 / 100.0;
        let blocked = found.iter().any(|(object, distance)| {
            *object < 256 && *object % 17 != 0 && *distance > EPS && *distance < max
        });
        assert_eq!(scene.occluded(&hits(&found), key(max)), blocked);
    }
}

#[test]
fn shadow_needs_a_dark_primitive_between_epsilon_and_the_light() {
    let scene = two_walls_and_a_light();
    assert!(scene.occluded(&hits(&[(0, 10.0)]), key(20.0)));
    assert!(!scene.occluded(&hits(&[(0, 20.0)]), key(20.0)));
    assert!(!scene.occluded(&hits(&[(0, 25.0)]), key(20.0)));
    assert!(!scene.occluded(&hits(&[(0, EPS)]), key(20.0)));
    assert!(scene.occluded(&hits(&[(0, 2.0 * EPS)]), key(20.0)));
    assert!(!scene.occluded(&Vec::new(), key(20.0)));
}

#[test]
fn lights_cast_no_shadow() {
    let scene = two_walls_and_a_light();
    assert!(!scene.occluded(&hits(&[(2, 10.0)]), key(20.0)));
    assert!(!scene.occluded(&hits(&[(2, 10.0), (5, 10.0)]), key(20.0)));
    assert!(scene.occluded(&hits(&[(2, 10.0), (1, 19.0)]), key(20.0)));
}

#[test]
fn faces_become_triangles() {
    let indices = vec![0, 1, 2, 2, 3, 0, 4, 5, 6, 7];
    let sizes = vec![3, 3, 4];
    assert_eq!(
        triangles(&indices, &sizes, 8),
        Ok(vec![Face { a: 0, b: 1, c: 2 }, Face { a: 2, b: 3, c: 0 }, Face { a: 4, b: 5, c: 6 }])
    );
    assert_eq!(triangles(&Vec::new(), &Vec::new(), 0), Ok(Vec::new()));
}

#[test]
fn a_face_past_the_index_list_is_refused() {
    assert_eq!(
        triangles(&vec![0, 1, 2, 0, 1], &vec![3, 3], 3),
        Err(MeshError::MissingIndices { face: 1 })
    );
}

#[test]
fn a_line_is_refused() {
    assert_eq!(
        triangles(&vec![0, 1, 2, 0, 1, 1, 2, 0], &vec![3, 2, 3], 3),
        Err(MeshError::ShortFace { face: 1 })
    );
}

#[test]
fn an_unknown_vertex_is_refused() {
    assert_eq!(
        triangles(&vec![0, 1, 2, 0, 1, 3], &vec![3, 3], 3),
        Err(MeshError::VertexOutOfRange { face: 1 })
    );
    assert_eq!(
        triangles(&vec![0, 1, 2], &vec![3], 0),
        Err(MeshError::VertexOutOfRange { face: 0 })
    );
}

#[test]
fn the_first_fault_is_reported() {
    assert_eq!(
        triangles(&vec![0, 9, 2, 0, 1], &vec![3, 2, 7], 3),
        Err(MeshError::VertexOutOfRange { face: 0 })
    );
}

fn normal(t: &WallTriangle) -> (i64, i64, i64) {
    let u = ((t.p2.x - t.p1.x) as i64, (t.p2.y - t.p1.y) as i64, (t.p2.z - t.p1.z) as i64);
    let v = ((t.p3.x - t.p1.x) as i64, (t.p3.y - t.p1.y) as i64, (t.p3.z - t.p1.z) as i64);
    (u.1 * v.2 - u.2 * v.1, u.2 * v.0 - u.0 * v.2, u.0 * v.1 - u.1 * v.0)
}

#[test]
fn the_box_has_two_triangles_for_each_of_five_walls() {
    let walls: Vec<Wall> = cornell_box().iter().map(|t| t.wall).collect();
    assert_eq!(
        walls,
        vec![
            Wall::Floor,
            Wall::Floor,
            Wall::Ceiling,
            Wall::Ceiling,
            Wall::Back,
            Wall::Back,
            Wall::Left,
            Wall::Left,
            Wall::Right,
            Wall::Right,
        ]
    );
}

#[test]
fn the_walls_face_inward() {
    let normals: Vec<(i64, i64, i64)> = cornell_box().iter().map(normal).collect();
    assert_eq!(
        normals,
        vec![
            (0, 2760, 0),
            (0, 2760, 0),
            (0, -2760, 0),
            (0, -2760, 0),
            (0, 0, 1600),
            (0, 0, 1600),
            (2760, 0, 0),
            (2760, 0, 0),
            (-2760, 0, 0),
            (-2760, 0, 0),
        ]
    );
}

#[test]
fn the_box_spans_forty_units_and_ends_at_the_back_wall() {
    let walls = cornell_box();
    let first = walls[0];
    assert_eq!((first.p1.x, first.p1.y, first.p1.z), (-20, -20, -68));
    assert_eq!((first.p2.x, first.p2.y, first.p2.z), (-20, -20, 1));
    assert_eq!((first.p3.x, first.p3.y, first.p3.z), (20, -20, -68));
    for t in walls.iter() {
        for p in [t.p1, t.p2, t.p3] {
            assert!(p.x == -20 || p.x == 20);
            assert!(p.y == -20 || p.y == 20);
            assert!(p.z == -68 || p.z == 1);
        }
    }
}

#[test]
fn wall_paints() {
    assert_eq!(Wall::Floor.paint(), Paint::Grey);
    assert_eq!(Wall::Ceiling.paint(), Paint::Grey);
    assert_eq!(Wall::Back.paint(), Paint::Green);
    assert_eq!(Wall::Left.paint(), Paint::Red);
    assert_eq!(Wall::Right.paint(), Paint::Blue);
}

#[test]
fn a_hit_counts_beyond_epsilon_on_a_known_primitive() {
    let scene = two_walls_and_a_light();
    assert!(scene.counts(RayIntersection::new(0, key(1.0))));
    assert!(scene.counts(RayIntersection::new(2, key(2.0 * EPS))));
    assert!(!scene.counts(RayIntersection::new(2, key(EPS))));
    assert!(!scene.counts(RayIntersection::new(2, key(-1.0))));
    assert!(!scene.counts(RayIntersection::new(3, key(1.0))));
    assert!(scene.blocks(RayIntersection::new(1, key(1.0)), key(2.0)));
    assert!(!scene.blocks(RayIntersection::new(1, key(2.0)), key(2.0)));
    assert!(!scene.blocks(RayIntersection::new(2, key(1.0)), key(2.0)));
    assert!(!scene.blocks(RayIntersection::new(9, key(1.0)), key(2.0)));
}

#[test]
fn a_primitive_is_a_light_where_its_emittance_is_not_black() {
    let scene = Scene::new(energies(&[0.0, EPS]), energies(&[2.0 * EPS, 3.0, -1.0]));
    assert!(!scene.is_light(0));
    assert!(!scene.is_light(1));
    assert!(scene.is_light(2));
    assert!(scene.is_light(3));
    assert!(!scene.is_light(4));
    assert!(!scene.is_light(5));
    assert_eq!(scene.lights(), vec![2, 3]);
    assert!(rustracer::scene::is_black(key(0.0)));
    assert!(rustracer::scene::is_black(key(EPS)));
    assert!(!rustracer::scene::is_black(key(1.0)));
}

#[test]
fn the_closest_distance_does_not_depend_on_the_order_of_the_hits() {
    let scene = two_walls_and_a_light();
    let found = [(0, 40.0), (1, 20.5), (2, 30.0), (1, 25.0), (0, 20.5)];
    let all = hits(&found);
    let mut reversed = all.clone();
    reversed.reverse();
    let mut culled = hits(&[(2, 30.0), (0, 20.5), (1, 20.5), (1, 25.0), (0, 40.0)]);
    culled.push(RayIntersection::new(7, key(1.0)));
    culled.push(RayIntersection::new(1, key(EPS)));
    let expected = key(20.5);
    assert_eq!(scene.intersect(&all).unwrap().distance(), expected);
    assert_eq!(scene.intersect(&reversed).unwrap().distance(), expected);
    assert_eq!(scene.intersect(&culled).unwrap().distance(), expected);
    assert_eq!(scene.intersect(&all).unwrap().object(), 1);
    assert_eq!(scene.intersect(&reversed).unwrap().object(), 0);
}
