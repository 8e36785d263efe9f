use crate::math::point::Point;
use crate::math::ray::{Ray, Ray3};
use crate::scene::primitive::{ray_ok, Hit, Hit3, Primitive};
use vstd::prelude::*;

verus! {

/// Whether `t` is at most the parameter of `h`, vacuously for a miss.
pub open spec fn le_hit(t: int, h: Option<Hit3>) -> bool {
    match h {
        Some(hh) => t <= hh.t,
        None => true,
    }
}

/// Whether `t` is strictly below the parameter of `h`, vacuously for a miss.
pub open spec fn lt_hit(t: int, h: Option<Hit3>) -> bool {
    match h {
        Some(hh) => t < hh.t,
        None => true,
    }
}

/// The nearest hit of a ray over a sequence of primitives, scanned in
/// insertion order: the hit with the minimum parameter, the earliest
/// primitive winning ties.  The result carries the index of the
/// primitive that was hit.
pub open spec fn nearest_hit(prims: Seq<Primitive>, r: Ray3) -> Option<(int, Hit3)>
    decreases prims.len(),
{
    if prims.len() == 0 {
        None
    } else {
        let prev = nearest_hit(prims.drop_last(), r);
        let lasth = prims.last().hit_model(r);
        match prev {
            None => match lasth {
                None => None,
                Some(h) => Some((prims.len() - 1, h)),
            },
            Some((pi, ph)) => match lasth {
                None => Some((pi, ph)),
                Some(h) => if h.t < ph.t {
                    Some((prims.len() - 1, h))
                } else {
                    Some((pi, ph))
                },
            },
        }
    }
}

/// The nearest-hit scan is sound and complete: a `None` means every
/// primitive misses, and a `Some((i, h))` is the hit of primitive `i`,
/// no other hit has a smaller parameter, and every earlier primitive's
/// hit has a strictly larger one.
pub proof fn lemma_nearest_hit_sound(prims: Seq<Primitive>, r: Ray3)
    ensures
        nearest_hit(prims, r) is None ==> forall|j: int|
            0 <= j < prims.len() ==> #[trigger] prims[j].hit_model(r) is None,
        nearest_hit(prims, r) matches Some((i, h)) ==> {
            &&& 0 <= i < prims.len()
            &&& prims[i].hit_model(r) == Some(h)
            &&& forall|j: int| 0 <= j < prims.len() ==> le_hit(h.t, #[trigger] prims[j].hit_model(r))
            &&& forall|j: int| 0 <= j < i ==> lt_hit(h.t, #[trigger] prims[j].hit_model(r))
        },
    decreases prims.len(),
{
    if prims.len() > 0 {
        lemma_nearest_hit_sound(prims.drop_last(), r);
        assert(forall|j: int|
            0 <= j < prims.len() - 1 ==> prims.drop_last()[j] == #[trigger] prims[j]);
    }
}

/// An owned, ordered collection of primitives with linear-scan hit
/// resolution.
#[derive(Debug)]
pub struct World {
    /// The primitives, in insertion order.
    pub primitives: Vec<Primitive>,
}

impl World {
    /// A world is well-formed when every primitive in it is.
    pub open spec fn wf(self) -> bool {
        forall|i: int| 0 <= i < self.primitives@.len() ==> (#[trigger] self.primitives@[i]).wf()
    }

    /// Construct an empty world with room for the given number of
    /// primitives.
    pub fn new(num_primitives: usize) -> (w: World)
        ensures
            w.primitives@.len() == 0,
            w.wf(),
    {
        World { primitives: Vec::with_capacity(num_primitives) }
    }

    /// Append a primitive; insertion order is preserved, with no
    /// deduplication and no bound.
    pub fn add_primitive(&mut self, primitive: Primitive)
        ensures
            final (self).primitives@ == old(self).primitives@.push(primitive),
    {
        self.primitives.push(primitive);
    }

    /// The nearest hit over all primitives, with the index of the
    /// primitive that was hit: scan every primitive and keep the minimum
    /// positive parameter, the earliest primitive winning ties.
    pub fn hit_detailed(&self, ray: &Ray) -> (r: Option<(usize, Hit)>)
        requires
            self.wf(),
            ray_ok(ray@),
        ensures
            r is Some <==> nearest_hit(self.primitives@, ray@) is Some,
            r matches Some((i, h)) ==> nearest_hit(self.primitives@, ray@) == Some((
                i as int,
                h@,
            )),
    {
        let mut best: Option<(usize, Hit)> = None;
        let mut idx: usize = 0;
        let n = self.primitives.len();
        while idx < n
            invariant
                self.wf(),
                ray_ok(ray@),
                n == self.primitives@.len(),
                idx <= n,
                best is Some <==> nearest_hit(self.primitives@.take(idx as int), ray@) is Some,
                best matches Some((i, h)) ==> nearest_hit(
                    self.primitives@.take(idx as int),
                    ray@,
                ) == Some((i as int, h@)),
            decreases n - idx,
        {
            let ghost prefix = self.primitives@.take(idx as int);
            let cur = self.primitives[idx].hit(ray);
            proof {
                assert(self.primitives@.take(idx as int + 1).drop_last() =~= prefix);
                assert(self.primitives@.take(idx as int + 1).last() == self.primitives@[
                    idx as int]);
            }
            match cur {
                Some(h) => {
                    match best {
                        Some((_, bh)) => {
                            if h.t < bh.t {
                                best = Some((idx, h));
                            }
                        },
                        None => {
                            best = Some((idx, h));
                        },
                    }
                },
                None => {},
            }
            idx = idx + 1;
        }
        proof {
            assert(self.primitives@.take(n as int) =~= self.primitives@);
        }
        best
    }

    /// The nearest hit point over all primitives, or `None` when every
    /// primitive misses.
    pub fn hit(&self, ray: &Ray) -> (r: Option<Point>)
        requires
            self.wf(),
            ray_ok(ray@),
        ensures
            r is Some <==> nearest_hit(self.primitives@, ray@) is Some,
            r matches Some(pt) ==> (nearest_hit(self.primitives@, ray@) matches Some((i, h))
                && pt@ == h.point),
    {
        match self.hit_detailed(ray) {
            Some((_, h)) => Some(h.point),
            None => None,
        }
    }
}

} // verus!
