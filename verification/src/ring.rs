use vstd::prelude::*;

use crate::column::{cheb_dist, Column};

verus! {

/// Upper bound on any ring-cursor target radius; keeps perimeter indices
/// inside `u32` and ring coordinates inside `i32` with room to spare.
pub const MAX_RADIUS: u32 = 0x0FFF_FFFF;

/// Number of columns on the ring at Chebyshev distance `r`: the origin
/// alone at distance zero, the `8r` perimeter columns of a square otherwise.
pub open spec fn ring_len(r: int) -> int {
    if r == 0 {
        1
    } else {
        8 * r
    }
}

/// The `k`-th column of the ring at Chebyshev distance `r` around
/// `(ox, oz)`, for `0 <= k < ring_len(r)`. The order starts at the
/// north-west corner and walks the perimeter: north edge west to east,
/// east edge north to south, south edge east to west, west edge south to
/// north.
pub open spec fn ring_point(ox: int, oz: int, r: int, k: int) -> (int, int) {
    if r == 0 {
        (ox, oz)
    } else if k < 2 * r {
        (ox - r + k, oz - r)
    } else if k < 4 * r {
        (ox + r, oz - r + (k - 2 * r))
    } else if k < 6 * r {
        (ox + r - (k - 4 * r), oz + r)
    } else {
        (ox - r, oz + r - (k - 6 * r))
    }
}

/// The perimeter index at which the ring at distance `r` around `(ox, oz)`
/// visits `(px, pz)`; meaningful when `(px, pz)` lies at Chebyshev distance
/// exactly `r` from the origin.
pub open spec fn ring_index_of(ox: int, oz: int, r: int, px: int, pz: int) -> int {
    let dx = px - ox;
    let dz = pz - oz;
    if r == 0 {
        0
    } else if dz == -r && dx < r {
        dx + r
    } else if dx == r && dz < r {
        2 * r + (dz + r)
    } else if dz == r && dx > -r {
        4 * r + (r - dx)
    } else {
        6 * r + (r - dz)
    }
}

/// Every perimeter index of the ring at distance `r` lands on a column at
/// Chebyshev distance exactly `r` from the origin.
pub proof fn lemma_ring_point_on_ring(ox: int, oz: int, r: int, k: int)
    requires
        0 <= r,
        0 <= k < ring_len(r),
    ensures
        cheb_dist(ox, oz, ring_point(ox, oz, r, k).0, ring_point(ox, oz, r, k).1) == r,
{
}

/// Distinct perimeter indices of one ring land on distinct columns.
pub proof fn lemma_ring_point_injective(ox: int, oz: int, r: int, k1: int, k2: int)
    requires
        0 <= r,
        0 <= k1 < ring_len(r),
        0 <= k2 < ring_len(r),
        k1 != k2,
    ensures
        ring_point(ox, oz, r, k1) != ring_point(ox, oz, r, k2),
{
}

/// Every column at Chebyshev distance exactly `r` from the origin is
/// visited by the ring at distance `r`, at index `ring_index_of`.
pub proof fn lemma_ring_point_complete(ox: int, oz: int, r: int, px: int, pz: int)
    requires
        0 <= r,
        cheb_dist(ox, oz, px, pz) == r,
    ensures
        0 <= ring_index_of(ox, oz, r, px, pz) < ring_len(r),
        ring_point(ox, oz, r, ring_index_of(ox, oz, r, px, pz)) == (px, pz),
{
}

/// Ring traversal law: the ring at distance `r` around an origin consists
/// of exactly `ring_len(r)` columns (one at `r == 0`, `8r` otherwise),
/// pairwise distinct, each at Chebyshev distance exactly `r`, and every
/// column at that distance is among them.
pub proof fn lemma_ring_traversal(ox: int, oz: int, r: int)
    requires
        0 <= r,
    ensures
        r == 0 ==> ring_len(r) == 1,
        r >= 1 ==> ring_len(r) == 8 * r,
        forall|k: int|
            #![trigger ring_point(ox, oz, r, k)]
            0 <= k < ring_len(r) ==> cheb_dist(
                ox,
                oz,
                ring_point(ox, oz, r, k).0,
                ring_point(ox, oz, r, k).1,
            ) == r,
        forall|k1: int, k2: int|
            0 <= k1 < ring_len(r) && 0 <= k2 < ring_len(r) && k1 != k2 ==> #[trigger] ring_point(
                ox,
                oz,
                r,
                k1,
            ) != #[trigger] ring_point(ox, oz, r, k2),
        forall|px: int, pz: int|
            cheb_dist(ox, oz, px, pz) == r ==> exists|k: int|
                0 <= k < ring_len(r) && #[trigger] ring_point(ox, oz, r, k) == (px, pz),
{
    assert forall|k: int|
        #![trigger ring_point(ox, oz, r, k)]
        0 <= k < ring_len(r) implies cheb_dist(
        ox,
        oz,
        ring_point(ox, oz, r, k).0,
        ring_point(ox, oz, r, k).1,
    ) == r by {
        lemma_ring_point_on_ring(ox, oz, r, k);
    }
    assert forall|k1: int, k2: int|
        0 <= k1 < ring_len(r) && 0 <= k2 < ring_len(r) && k1 != k2 implies #[trigger] ring_point(
        ox,
        oz,
        r,
        k1,
    ) != #[trigger] ring_point(ox, oz, r, k2) by {
        lemma_ring_point_injective(ox, oz, r, k1, k2);
    }
    assert forall|px: int, pz: int| cheb_dist(ox, oz, px, pz) == r implies exists|k: int|
        0 <= k < ring_len(r) && #[trigger] ring_point(ox, oz, r, k) == (px, pz) by {
        lemma_ring_point_complete(ox, oz, r, px, pz);
        let k = ring_index_of(ox, oz, r, px, pz);
        assert(0 <= k < ring_len(r) && ring_point(ox, oz, r, k) == (px, pz));
    }
}

/// Disc enumeration law: the rings at distances `0..=rr` around an origin
/// together cover every column within Chebyshev distance `rr` exactly
/// once. Each such column appears on the ring at its own distance, at
/// exactly one perimeter index, and on no other ring.
pub proof fn lemma_disc_enumeration(ox: int, oz: int, px: int, pz: int, rr: int)
    requires
        0 <= rr,
        cheb_dist(ox, oz, px, pz) <= rr,
    ensures
        ({
            let d = cheb_dist(ox, oz, px, pz);
            let k = ring_index_of(ox, oz, d, px, pz);
            0 <= d <= rr && 0 <= k < ring_len(d) && ring_point(ox, oz, d, k) == (px, pz)
        }),
        forall|d: int, k: int|
            0 <= d && 0 <= k < ring_len(d) && #[trigger] ring_point(ox, oz, d, k) == (px, pz)
                ==> d == cheb_dist(ox, oz, px, pz) && k == ring_index_of(ox, oz, d, px, pz),
{
    let d0 = cheb_dist(ox, oz, px, pz);
    lemma_ring_point_complete(ox, oz, d0, px, pz);
    assert forall|d: int, k: int|
        0 <= d && 0 <= k < ring_len(d) && #[trigger] ring_point(ox, oz, d, k) == (px, pz) implies d
        == d0 && k == ring_index_of(ox, oz, d, px, pz) by {
        lemma_ring_point_on_ring(ox, oz, d, k);
        if k != ring_index_of(ox, oz, d, px, pz) {
            lemma_ring_point_complete(ox, oz, d, px, pz);
            lemma_ring_point_injective(ox, oz, d, k, ring_index_of(ox, oz, d, px, pz));
        }
    }
}

/// Total number of columns on the rings at distances `d..=radius`.
pub open spec fn rings_total(d: int, radius: int) -> int
    decreases radius + 1 - d,
{
    if d < 0 || d > radius {
        0
    } else {
        ring_len(d) + rings_total(d + 1, radius)
    }
}

/// The ring totals are never negative.
pub proof fn lemma_rings_total_nonneg(d: int, radius: int)
    ensures
        rings_total(d, radius) >= 0,
    decreases radius + 1 - d,
{
    if 0 <= d <= radius {
        lemma_rings_total_nonneg(d + 1, radius);
    }
}

/// Traversal cursor of one stage of one request: yields the columns of the
/// ring at distance `current` around `origin` in the stable perimeter
/// order, then advances to the next ring; terminal once `current` exceeds
/// the target `radius`.
#[derive(Clone, Copy, PartialEq, Eq, Structural, Debug)]
pub struct RingIterator {
    pub origin: Column,
    pub current: u32,
    pub index: u32,
    pub radius: u32,
}

impl RingIterator {
    /// Well-formed cursor: the target radius is bounded, every column of
    /// every ring up to the target fits in `i32` coordinates, and the
    /// perimeter index lies inside the current ring (or the cursor sits in
    /// its single terminal state).
    pub open spec fn wf(self) -> bool {
        &&& self.radius <= MAX_RADIUS
        &&& self.origin.x as int - self.radius as int >= i32::MIN as int
        &&& self.origin.x as int + self.radius as int <= i32::MAX as int
        &&& self.origin.z as int - self.radius as int >= i32::MIN as int
        &&& self.origin.z as int + self.radius as int <= i32::MAX as int
        &&& (self.current <= self.radius ==> (self.index as int) < ring_len(self.current as int))
        &&& (self.current > self.radius ==> self.current as int == self.radius as int + 1
            && self.index == 0)
    }

    /// The cursor has yielded every column of every ring up to its target
    /// radius.
    pub open spec fn done(self) -> bool {
        self.current > self.radius
    }

    /// The cursor state after one column is yielded: the next perimeter
    /// index of the current ring, or the start of the next ring.
    pub open spec fn step_state(self) -> Self {
        if self.index as int + 1 < ring_len(self.current as int) {
            RingIterator { index: (self.index + 1) as u32, ..self }
        } else {
            RingIterator { current: (self.current + 1) as u32, index: 0u32, ..self }
        }
    }

    /// Number of columns the cursor has yet to yield.
    pub open spec fn count(self) -> int {
        if self.done() {
            0
        } else {
            ring_len(self.current as int) - self.index + rings_total(
                self.current as int + 1,
                self.radius as int,
            )
        }
    }

    /// Cursor over the rings at distances `distance..=radius` around
    /// `origin`.
    pub fn new(origin: Column, distance: u32, radius: u32) -> (r: Self)
        requires
            distance <= radius,
            radius <= MAX_RADIUS,
            origin.x as int - radius as int >= i32::MIN as int,
            origin.x as int + radius as int <= i32::MAX as int,
            origin.z as int - radius as int >= i32::MIN as int,
            origin.z as int + radius as int <= i32::MAX as int,
        ensures
            r == (RingIterator { origin, current: distance, index: 0u32, radius }),
            r.wf(),
            !r.done(),
    {
        RingIterator { origin, current: distance, index: 0, radius }
    }

    /// The same cursor with its target radius pushed `padding` rings
    /// further out.
    pub fn with_padding(self, padding: u32) -> (r: Self)
        requires
            self.wf(),
            self.radius as int + padding as int <= MAX_RADIUS as int,
            self.origin.x as int - (self.radius as int + padding as int) >= i32::MIN as int,
            self.origin.x as int + (self.radius as int + padding as int) <= i32::MAX as int,
            self.origin.z as int - (self.radius as int + padding as int) >= i32::MIN as int,
            self.origin.z as int + (self.radius as int + padding as int) <= i32::MAX as int,
        ensures
            r == (RingIterator { radius: (self.radius + padding) as u32, ..self }),
            r.wf(),
    {
        RingIterator { radius: self.radius + padding, ..self }
    }

    /// Runtime check of `wf`, for callers outside the verified library.
    pub fn valid(&self) -> (b: bool)
        ensures
            b == self.wf(),
    {
        let ox = self.origin.x as i64;
        let oz = self.origin.z as i64;
        let r = self.radius as i64;
        let in_bounds = self.radius <= MAX_RADIUS && ox - r >= i32::MIN as i64 && ox + r
            <= i32::MAX as i64 && oz - r >= i32::MIN as i64 && oz + r <= i32::MAX as i64;
        let index_ok = if self.current <= self.radius {
            let ring_end: u64 = if self.current == 0 {
                1
            } else {
                8 * (self.current as u64)
            };
            (self.index as u64) < ring_end
        } else {
            self.current as u64 == self.radius as u64 + 1 && self.index == 0
        };
        in_bounds && index_ok
    }

    /// Runtime check of `done`.
    pub fn is_finished(&self) -> (b: bool)
        ensures
            b == self.done(),
    {
        self.current > self.radius
    }

    /// Each yielded column lowers the number of columns left by exactly
    /// one, and a cursor that is not done has at least one column left.
    pub proof fn lemma_count_step(self)
        requires
            self.wf(),
            !self.done(),
        ensures
            self.count() >= 1,
            self.step_state().count() == self.count() - 1,
    {
        lemma_rings_total_nonneg(self.current as int + 1, self.radius as int);
        if self.index as int + 1 < ring_len(self.current as int) {
        } else {
            if self.current == self.radius {
                assert(rings_total(self.current as int + 1, self.radius as int) == 0);
            } else {
                assert(rings_total(self.current as int + 1, self.radius as int) == ring_len(
                    self.current as int + 1,
                ) + rings_total(self.current as int + 2, self.radius as int));
            }
        }
    }

    /// Yields the next column of the traversal: the column of the current
    /// ring at the current perimeter index, exactly `ring_point` of the
    /// cursor state; `None` once every ring up to the target radius has
    /// been yielded, after which the cursor no longer changes.
    pub fn next(&mut self) -> (r: Option<Column>)
        requires
            old(self).wf(),
        ensures
            final(self).wf(),
            old(self).done() ==> r is None && *final(self) == *old(self),
            !old(self).done() ==> {
                &&& *final(self) == old(self).step_state()
                &&& r is Some
                &&& r->0.x as int == ring_point(
                    old(self).origin.x as int,
                    old(self).origin.z as int,
                    old(self).current as int,
                    old(self).index as int,
                ).0
                &&& r->0.z as int == ring_point(
                    old(self).origin.x as int,
                    old(self).origin.z as int,
                    old(self).current as int,
                    old(self).index as int,
                ).1
            },
    {
        if self.current > self.radius {
            return None;
        }
        let ox = self.origin.x;
        let oz = self.origin.z;
        let r = self.current as i32;
        let k = self.index;
        let x: i32;
        let z: i32;
        if self.current == 0 {
            x = ox;
            z = oz;
        } else if k < 2 * self.current {
            x = ox - r + (k as i32);
            z = oz - r;
        } else if k < 4 * self.current {
            x = ox + r;
            z = oz - r + (k as i32 - 2 * r);
        } else if k < 6 * self.current {
            x = ox + r - (k as i32 - 4 * r);
            z = oz + r;
        } else {
            x = ox - r;
            z = oz + r - (k as i32 - 6 * r);
        }
        let ring_end: u32 = if self.current == 0 {
            1
        } else {
            8 * self.current
        };
        if self.index + 1 < ring_end {
            self.index = self.index + 1;
        } else {
            self.index = 0;
            self.current = self.current + 1;
        }
        Some(Column { x, z })
    }
}

} // verus!
