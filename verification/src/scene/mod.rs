use vstd::prelude::*;

pub mod cornell;
pub mod geo;
pub mod mesh;
pub mod objects;

pub use geo::{Key, EPSILON};
pub use objects::{is_black, spec_is_black, BSDF};

verus! {

/// An exact intersection of a ray with a primitive of the scene: the index of
/// the primitive and the key of the distance at which the ray meets it.
#[derive(Clone, Copy, Debug, PartialEq, Eq, Structural)]
pub struct RayIntersection {
    distance: Key,
    object: usize,
}

impl RayIntersection {
    pub closed spec fn spec_distance(&self) -> Key {
        self.distance
    }

    pub closed spec fn spec_object(&self) -> usize {
        self.object
    }

    pub fn new(object: usize, distance: Key) -> (hit: RayIntersection)
        ensures
            hit.spec_object() == object,
            hit.spec_distance() == distance,
    {
        RayIntersection { distance, object }
    }

    #[verifier::when_used_as_spec(spec_distance)]
    pub fn distance(&self) -> (distance: Key)
        ensures
            distance == self.spec_distance(),
    {
        self.distance
    }

    #[verifier::when_used_as_spec(spec_object)]
    pub fn object(&self) -> (object: usize)
        ensures
            object == self.spec_object(),
    {
        self.object
    }
}

/// Two intersections are the same where they name the same primitive at the
/// same distance.
pub proof fn lemma_intersection_eq(a: RayIntersection, b: RayIntersection)
    ensures
        a == b <==> a.spec_object() == b.spec_object() && a.spec_distance() == b.spec_distance(),
{
}

/// `lights` lists, in increasing order and without gaps, the indices of the
/// primitives that emit light.
pub open spec fn is_light_list(lights: Seq<usize>, emissive: Seq<bool>) -> bool {
    &&& forall|k: int|
        0 <= k < lights.len() ==> lights[k] < emissive.len() && emissive[lights[k] as int]
    &&& forall|j: int, k: int| 0 <= j < k < lights.len() ==> lights[j] < lights[k]
    &&& forall|i: int| 0 <= i < emissive.len() && emissive[i] ==> has_light(lights, i)
}

/// Primitive `i` is on the list.
pub open spec fn has_light(lights: Seq<usize>, i: int) -> bool {
    exists|k: int| 0 <= k < lights.len() && lights[k] == i
}

/// The light list is determined by the primitives: two lists of the lights of
/// the same primitives are the same list.
pub proof fn lemma_light_list_is_unique(a: Seq<usize>, b: Seq<usize>, emissive: Seq<bool>)
    requires
        is_light_list(a, emissive),
        is_light_list(b, emissive),
    ensures
        a == b,
    decreases a.len(),
{
    if a.len() == 0 {
        if b.len() > 0 {
            assert(has_light(a, b[0] as int));
        }
        assert(a =~= b);
    } else {
        let m = a.last();
        assert(has_light(b, m as int));
        let j = choose|j: int| 0 <= j < b.len() && b[j] == m;
        if j < b.len() - 1 {
            assert(has_light(a, b.last() as int));
            let k = choose|k: int| 0 <= k < a.len() && a[k] == b.last();
            assert(k < a.len() - 1 ==> a[k] < a[a.len() - 1]);
        }
        let rest = emissive.update(m as int, false);
        assert forall|i: int| 0 <= i < rest.len() && rest[i] implies has_light(a.drop_last(), i)
            && has_light(b.drop_last(), i) by {
            assert(has_light(a, i));
            let k = choose|k: int| 0 <= k < a.len() && a[k] == i;
            assert(a.drop_last()[k] == i);
            assert(has_light(b, i));
            let l = choose|l: int| 0 <= l < b.len() && b[l] == i;
            assert(b.drop_last()[l] == i);
        }
        assert forall|k: int| 0 <= k < a.drop_last().len() implies a.drop_last()[k] < rest.len()
            && rest[a.drop_last()[k] as int] by {
            assert(a[k] < a[a.len() - 1]);
        }
        assert forall|k: int| 0 <= k < b.drop_last().len() implies b.drop_last()[k] < rest.len()
            && rest[b.drop_last()[k] as int] by {
            assert(b[k] < b[b.len() - 1]);
        }
        lemma_light_list_is_unique(a.drop_last(), b.drop_last(), rest);
        assert(a =~= a.drop_last().push(a.last()));
        assert(b =~= b.drop_last().push(b.last()));
    }
}

/// For each primitive, whether it emits light, from the energy of the light
/// that each emits: a primitive is a light where its emittance is not black.
pub open spec fn emissive_of(emittance: Seq<Key>) -> Seq<bool> {
    Seq::new(emittance.len(), |i: int| !spec_is_black(emittance[i]))
}

/// The part of a scene that the ray queries decide on: which of its
/// primitives emit light. The scene is static: it is built once and read from
/// then on.
pub struct Scene {
    emissive: Vec<bool>,
    light_indexes: Vec<usize>,
}

impl Scene {
    /// For each primitive, whether it emits light.
    pub closed spec fn spec_emissive(&self) -> Seq<bool> {
        self.emissive@
    }

    /// The indices of the lights.
    pub closed spec fn spec_lights(&self) -> Seq<usize> {
        self.light_indexes@
    }

    /// The light list matches the primitives.
    pub open spec fn wf(&self) -> bool {
        is_light_list(self.spec_lights(), self.spec_emissive())
    }

    /// A hit counts where it names a primitive of the scene and lies beyond
    /// epsilon.
    pub open spec fn spec_counts(&self, hit: RayIntersection) -> bool {
        hit.spec_object() < self.spec_emissive().len() && hit.spec_distance() > EPSILON
    }

    /// A hit casts a shadow on a point `max_distance` away where it counts, is
    /// nearer than that, and its primitive emits no light.
    pub open spec fn spec_blocks(&self, hit: RayIntersection, max_distance: Key) -> bool {
        &&& self.spec_counts(hit)
        &&& hit.spec_distance() < max_distance
        &&& !self.spec_emissive()[hit.spec_object() as int]
    }

    /// `hits[i]` counts, no hit that counts is nearer, and of the hits equally
    /// near it is the first.
    pub open spec fn is_closest(&self, hits: Seq<RayIntersection>, i: int) -> bool {
        &&& 0 <= i < hits.len()
        &&& self.spec_counts(hits[i])
        &&& forall|j: int|
            0 <= j < hits.len() && self.spec_counts(hits[j]) ==> hits[i].spec_distance()
                <= hits[j].spec_distance()
        &&& forall|j: int|
            0 <= j < i && self.spec_counts(hits[j]) ==> hits[i].spec_distance()
                < hits[j].spec_distance()
    }

    /// The closest hit is determined by the hits: at most one place in a list
    /// of hits holds the closest.
    pub proof fn lemma_closest_is_unique(&self, hits: Seq<RayIntersection>, i: int, j: int)
        requires
            self.is_closest(hits, i),
            self.is_closest(hits, j),
        ensures
            i == j,
    {
    }

    /// Every hit of `hits` that counts is among `others`.
    pub open spec fn covered(
        &self,
        hits: Seq<RayIntersection>,
        others: Seq<RayIntersection>,
    ) -> bool {
        forall|i: int|
            0 <= i < hits.len() && self.spec_counts(hits[i]) ==> exists|j: int|
                0 <= j < others.len() && others[j] == #[trigger] hits[i]
    }

    /// How near the closest hit is depends on which hits there are, not on
    /// the order in which they were found, nor on hits that do not count:
    /// two lists that hold the same hits that count have closest hits at the
    /// same distance, or both have none. So it makes no difference whether
    /// every primitive was tested or only those that the ray can reach.
    pub proof fn lemma_closest_ignores_order(
        &self,
        hits: Seq<RayIntersection>,
        others: Seq<RayIntersection>,
        i: int,
    )
        requires
            self.covered(hits, others),
            self.covered(others, hits),
            self.is_closest(hits, i),
        ensures
            exists|j: int| self.is_closest(others, j),
            forall|j: int|
                self.is_closest(others, j) ==> others[j].spec_distance()
                    == hits[i].spec_distance(),
    {
        let first = choose|j: int| 0 <= j < others.len() && others[j] == hits[i];
        self.lemma_closest_exists(others, first);
        assert forall|j: int| self.is_closest(others, j) implies others[j].spec_distance()
            == hits[i].spec_distance() by {
            let back = choose|k: int| 0 <= k < hits.len() && hits[k] == others[j];
            assert(hits[i].spec_distance() <= hits[back].spec_distance());
            assert(others[j].spec_distance() <= others[first].spec_distance());
        }
    }

    /// A list with a hit that counts has a closest hit.
    pub proof fn lemma_closest_exists(&self, hits: Seq<RayIntersection>, i: int)
        requires
            0 <= i < hits.len(),
            self.spec_counts(hits[i]),
        ensures
            exists|j: int| self.is_closest(hits, j),
        decreases hits.len(),
    {
        let last = hits.len() - 1;
        if exists|k: int| 0 <= k < last && self.spec_counts(hits[k]) {
            let k = choose|k: int| 0 <= k < last && self.spec_counts(hits[k]);
            self.lemma_closest_exists(hits.drop_last(), k);
            let c = choose|c: int| self.is_closest(hits.drop_last(), c);
            assert(forall|j: int| 0 <= j < last ==> hits.drop_last()[j] == hits[j]);
            if self.spec_counts(hits[last]) && hits[last].spec_distance() < hits[c].spec_distance() {
                assert(self.is_closest(hits, last));
            } else {
                assert(self.is_closest(hits, c));
            }
        } else {
            assert(i == last);
            assert(self.is_closest(hits, last));
        }
    }

    /// Builds the scene from the energy that each of its primitives emits,
    /// triangles first and spheres after them, and finds the lights among
    /// them.
    pub fn new(triangles: Vec<Key>, spheres: Vec<Key>) -> (scene: Scene)
        ensures
            scene.wf(),
            scene.spec_emissive() == emissive_of(triangles@ + spheres@),
    {
        let mut emissive: Vec<bool> = Vec::new();
        let mut t: usize = 0;
        while t < triangles.len()
            invariant
                t <= triangles.len(),
                emissive@ == emissive_of(triangles@.take(t as int)),
            decreases triangles.len() - t,
        {
            emissive.push(!is_black(triangles[t]));
            t += 1;
            assert(emissive@ =~= emissive_of(triangles@.take(t as int)));
        }
        assert(triangles@.take(triangles.len() as int) =~= triangles@);
        let mut s: usize = 0;
        while s < spheres.len()
            invariant
                s <= spheres.len(),
                emissive@ == emissive_of(triangles@ + spheres@.take(s as int)),
            decreases spheres.len() - s,
        {
            emissive.push(!is_black(spheres[s]));
            s += 1;
            assert(emissive@ =~= emissive_of(triangles@ + spheres@.take(s as int)));
        }
        assert(spheres@.take(spheres.len() as int) =~= spheres@);
        let mut light_indexes: Vec<usize> = Vec::new();
        let mut i: usize = 0;
        while i < emissive.len()
            invariant
                i <= emissive.len(),
                is_light_list(light_indexes@, emissive@.take(i as int)),
            decreases emissive.len() - i,
        {
            let ghost before = light_indexes@;
            if emissive[i] {
                light_indexes.push(i);
            }
            i += 1;
            proof {
                let seen = emissive@.take(i as int);
                assert forall|k: int| 0 <= k < seen.len() && seen[k] implies has_light(
                    light_indexes@,
                    k,
                ) by {
                    if k < i - 1 {
                        assert(emissive@.take(i - 1)[k]);
                        assert(has_light(before, k));
                        let at = choose|at: int| 0 <= at < before.len() && before[at] == k;
                        assert(light_indexes@[at] == k);
                    } else {
                        assert(light_indexes@[light_indexes@.len() - 1] == k);
                    }
                }
                assert forall|k: int| 0 <= k < light_indexes@.len() implies light_indexes@[k]
                    < seen.len() && seen[light_indexes@[k] as int] by {
                    if k < before.len() {
                        assert(before[k] < emissive@.take(i - 1).len());
                        assert(emissive@.take(i - 1)[before[k] as int]);
                    }
                }
            }
        }
        assert(emissive@.take(emissive.len() as int) =~= emissive@);
        Scene { emissive, light_indexes }
    }

    /// Number of primitives.
    pub fn len(&self) -> (n: usize)
        ensures
            n == self.spec_emissive().len(),
    {
        self.emissive.len()
    }

    /// The indices of the primitives that emit light, in increasing order.
    pub fn lights(&self) -> (lights: Vec<usize>)
        requires
            self.wf(),
        ensures
            lights@ == self.spec_lights(),
            is_light_list(lights@, self.spec_emissive()),
    {
        let mut lights: Vec<usize> = Vec::new();
        let mut k: usize = 0;
        while k < self.light_indexes.len()
            invariant
                k <= self.light_indexes.len(),
                lights@ == self.light_indexes@.take(k as int),
            decreases self.light_indexes.len() - k,
        {
            lights.push(self.light_indexes[k]);
            k += 1;
            assert(lights@ =~= self.light_indexes@.take(k as int));
        }
        assert(self.light_indexes@.take(self.light_indexes.len() as int) =~= self.light_indexes@);
        lights
    }

    /// Whether a hit counts.
    #[verifier::when_used_as_spec(spec_counts)]
    pub fn counts(&self, hit: RayIntersection) -> (counts: bool)
        ensures
            counts == self.spec_counts(hit),
    {
        hit.object < self.emissive.len() && hit.distance > EPSILON
    }

    /// Whether a hit casts a shadow on a point `max_distance` away.
    #[verifier::when_used_as_spec(spec_blocks)]
    pub fn blocks(&self, hit: RayIntersection, max_distance: Key) -> (blocks: bool)
        ensures
            blocks == self.spec_blocks(hit, max_distance),
    {
        self.counts(hit) && hit.distance < max_distance && !self.emissive[hit.object]
    }

    /// Whether primitive `object` emits light. No primitive beyond the
    /// scene's does.
    pub fn is_light(&self, object: usize) -> (light: bool)
        ensures
            light == (object < self.spec_emissive().len() && self.spec_emissive()[object as int]),
    {
        object < self.emissive.len() && self.emissive[object]
    }

    /// Closest hit: of the exact intersections found for a ray, the nearest
    /// one that counts, and `None` where none counts.
    pub fn intersect(&self, hits: &Vec<RayIntersection>) -> (closest: Option<RayIntersection>)
        ensures
            closest is None <==> forall|i: int| 0 <= i < hits.len() ==> !self.spec_counts(hits[i]),
            closest matches Some(c) ==> exists|i: int| self.is_closest(hits@, i) && hits[i] == c,
    {
        let mut best: Option<RayIntersection> = None;
        let ghost mut at: int = 0;
        let mut i: usize = 0;
        while i < hits.len()
            invariant
                i <= hits.len(),
                best is None <==> forall|j: int| 0 <= j < i ==> !self.spec_counts(hits[j]),
                best matches Some(c) ==> self.is_closest(hits@.take(i as int), at) && hits[at] == c,
            decreases hits.len() - i,
        {
            let hit = hits[i];
            let counts = self.counts(hit);
            let nearer = match best {
                Some(c) => hit.distance < c.distance,
                None => true,
            };
            proof {
                let seen = hits@.take(i as int);
                let next = hits@.take(i + 1);
                assert(forall|j: int| 0 <= j < i ==> seen[j] == next[j]);
                assert(next[i as int] == hit);
                if counts && nearer {
                    at = i as int;
                }
            }
            if counts && nearer {
                best = Some(hit);
            }
            i += 1;
        }
        proof {
            assert(hits@.take(hits.len() as int) =~= hits@);
        }
        best
    }

    /// Any hit: whether, of the exact intersections found for a shadow ray, one
    /// blocks the way to a point `max_distance` away. Lights cast no shadow.
    pub fn occluded(&self, hits: &Vec<RayIntersection>, max_distance: Key) -> (blocked:
        bool)
        ensures
            blocked <==> exists|i: int|
                0 <= i < hits.len() && self.spec_blocks(hits[i], max_distance),
    {
        let mut i: usize = 0;
        while i < hits.len()
            invariant
                i <= hits.len(),
                forall|j: int| 0 <= j < i ==> !self.spec_blocks(hits[j], max_distance),
            decreases hits.len() - i,
        {
            if self.blocks(hits[i], max_distance) {
                return true;
            }
            i += 1;
        }
        false
    }
}

} // verus!
