use vstd::prelude::*;

use crate::column::Column;
use crate::ring::{RingIterator, MAX_RADIUS};

verus! {

/// Extra rings the light stage needs beyond the requested radius: light
/// propagates into adjacent chunks.
pub const LIGHT_EXTRA: u32 = 1;

/// Extra rings for the carver stage: terrain shape must be complete one
/// ring further out before features are carved.
pub const CARVER_EXTRA: u32 = LIGHT_EXTRA + 1;

/// Extra rings for the biome stage: biome assignment needs carvers
/// complete one ring further out.
pub const BIOME_EXTRA: u32 = CARVER_EXTRA + 1;

/// Extra rings for the structure-starts stage: chunks store references to
/// structures up to eight rings beyond the carver closure.
pub const STRUCTURE_STARTS_EXTRA: u32 = CARVER_EXTRA + 8;

/// Upper bound on a request radius; leaves room for every stage's extra
/// padding below the cursor bound `MAX_RADIUS`.
pub const MAX_REQUEST_RADIUS: u32 = 0x00FF_FFFF;

/// The five dependent generation passes, in dependency order.
#[derive(Clone, Copy, PartialEq, Eq, Structural, Debug)]
pub enum Stage {
    Terrain,
    Light,
    Carver,
    Biome,
    StructureStarts,
}

/// Extra padding of a stage beyond the ring distance it is synchronized
/// with.
pub open spec fn stage_extra(s: Stage) -> int {
    match s {
        Stage::Terrain => 0,
        Stage::Light => LIGHT_EXTRA as int,
        Stage::Carver => CARVER_EXTRA as int,
        Stage::Biome => BIOME_EXTRA as int,
        Stage::StructureStarts => STRUCTURE_STARTS_EXTRA as int,
    }
}

/// Padded target radius of stage `s` in the work unit at ring distance `i`.
pub open spec fn stage_radius(s: Stage, i: int) -> int {
    i + stage_extra(s)
}

/// Stage padding law: at every ring distance the five stages' padded radii
/// are ordered `Terrain <= Light < Carver < Biome < StructureStarts`, so a
/// later stage always sees the full dependency closure of the earlier
/// ones.
pub proof fn lemma_stage_padding_ordered(i: int)
    ensures
        stage_radius(Stage::Terrain, i) <= stage_radius(Stage::Light, i),
        stage_radius(Stage::Light, i) < stage_radius(Stage::Carver, i),
        stage_radius(Stage::Carver, i) < stage_radius(Stage::Biome, i),
        stage_radius(Stage::Biome, i) < stage_radius(Stage::StructureStarts, i),
{
}

/// A request to generate the columns within `radius` rings of `origin`,
/// across all five stages; never mutated after construction.
#[derive(Clone, Copy, PartialEq, Eq, Structural, Debug)]
pub struct LoadRequest {
    pub origin: Column,
    pub radius: u32,
}

impl LoadRequest {
    /// A request whose expansion stays within the machine limits: the
    /// radius is bounded and every padded ring of every stage fits in
    /// `i32` coordinates.
    pub open spec fn wf(self) -> bool {
        &&& self.radius <= MAX_REQUEST_RADIUS
        &&& self.origin.x as int - (self.radius as int + STRUCTURE_STARTS_EXTRA as int)
            >= i32::MIN as int
        &&& self.origin.x as int + (self.radius as int + STRUCTURE_STARTS_EXTRA as int)
            <= i32::MAX as int
        &&& self.origin.z as int - (self.radius as int + STRUCTURE_STARTS_EXTRA as int)
            >= i32::MIN as int
        &&& self.origin.z as int + (self.radius as int + STRUCTURE_STARTS_EXTRA as int)
            <= i32::MAX as int
    }

    /// The same request with another radius.
    pub fn with_radius(self, radius: u32) -> (r: Self)
        ensures
            r == (LoadRequest { origin: self.origin, radius }),
    {
        LoadRequest { origin: self.origin, radius }
    }

    /// The same request with its radius grown by `padding` rings.
    pub fn with_padding(self, padding: u32) -> (r: Self)
        requires
            self.radius as int + padding as int <= u32::MAX as int,
        ensures
            r == (LoadRequest { origin: self.origin, radius: (self.radius + padding) as u32 }),
    {
        LoadRequest { origin: self.origin, radius: self.radius + padding }
    }

    /// Runtime check of `wf`, for callers outside the verified library.
    pub fn valid(&self) -> (b: bool)
        ensures
            b == self.wf(),
    {
        let reach = self.radius as i64 + STRUCTURE_STARTS_EXTRA as i64;
        self.radius <= MAX_REQUEST_RADIUS && (self.origin.x as i64) - reach >= i32::MIN as i64
            && (self.origin.x as i64) + reach <= i32::MAX as i64 && (self.origin.z as i64) - reach
            >= i32::MIN as i64 && (self.origin.z as i64) + reach <= i32::MAX as i64
    }
}

/// One ring step of one request: the five ring-distance-synchronized stage
/// cursors to process together, each starting at the unit's ring distance
/// and padded out to its stage's target radius.
#[derive(Clone, Copy, PartialEq, Eq, Structural, Debug)]
pub struct WorkUnit {
    pub distance: u32,
    pub terrain: RingIterator,
    pub light: RingIterator,
    pub carver: RingIterator,
    pub biome: RingIterator,
    pub structure_starts: RingIterator,
}

/// The cursor of one stage in the work unit at ring distance `d` of a
/// request from `origin`: it starts on the ring at distance `d` and ends
/// after the ring at the stage's padded radius `d + extra`.
pub open spec fn spec_stage_cursor(origin: Column, d: u32, extra: u32) -> RingIterator {
    RingIterator { origin, current: d, index: 0u32, radius: (d + extra) as u32 }
}

/// The work unit a request expands to at ring distance `d`.
pub open spec fn spec_work_unit(req: LoadRequest, d: u32) -> WorkUnit {
    WorkUnit {
        distance: d,
        terrain: spec_stage_cursor(req.origin, d, 0u32),
        light: spec_stage_cursor(req.origin, d, LIGHT_EXTRA),
        carver: spec_stage_cursor(req.origin, d, CARVER_EXTRA),
        biome: spec_stage_cursor(req.origin, d, BIOME_EXTRA),
        structure_starts: spec_stage_cursor(req.origin, d, STRUCTURE_STARTS_EXTRA),
    }
}

/// Lazily expands a request into its finite sequence of work units, one
/// per ring distance `0..=radius`, in increasing ring-distance order;
/// restartable by reconstruction from the same request.
#[derive(Clone, Copy, PartialEq, Eq, Structural, Debug)]
pub struct RequestTraversal {
    pub request: LoadRequest,
    pub next_distance: u32,
}

impl RequestTraversal {
    /// Every work unit of the request has been yielded.
    pub open spec fn spec_done(self) -> bool {
        self.next_distance > self.request.radius
    }

    /// Number of work units still to be yielded.
    pub open spec fn remaining(self) -> int {
        if self.spec_done() {
            0
        } else {
            self.request.radius as int + 1 - self.next_distance as int
        }
    }

    /// The traversal state is reachable from a well-formed request.
    pub open spec fn wf(self) -> bool {
        &&& self.request.wf()
        &&& self.next_distance as int <= self.request.radius as int + 1
    }

    /// The traversal state after one work unit is yielded.
    pub open spec fn spec_advance(self) -> Self {
        RequestTraversal { request: self.request, next_distance: (self.next_distance + 1) as u32 }
    }

    /// Fresh traversal of `request`, positioned before ring distance zero.
    pub fn new(request: LoadRequest) -> (t: Self)
        requires
            request.wf(),
        ensures
            t == (RequestTraversal { request, next_distance: 0u32 }),
            t.wf(),
            t.remaining() == request.radius as int + 1,
    {
        RequestTraversal { request, next_distance: 0 }
    }

    /// Runtime check of `spec_done`.
    pub fn is_finished(&self) -> (b: bool)
        ensures
            b == self.spec_done(),
    {
        self.next_distance > self.request.radius
    }

    /// Yields the work unit at the next ring distance: five well-formed
    /// stage cursors, all starting on the ring at that distance, padded
    /// out to their stages' target radii. Yields `None` once every ring
    /// distance up to the request radius has been covered, after which the
    /// traversal no longer changes.
    pub fn next(&mut self) -> (r: Option<WorkUnit>)
        requires
            old(self).wf(),
        ensures
            final(self).wf(),
            final(self).request == old(self).request,
            old(self).spec_done() ==> r is None && *final(self) == *old(self),
            !old(self).spec_done() ==> {
                &&& r == Some(spec_work_unit(old(self).request, old(self).next_distance))
                &&& *final(self) == old(self).spec_advance()
                &&& final(self).remaining() == old(self).remaining() - 1
                &&& r->0.terrain.wf() && r->0.light.wf() && r->0.carver.wf() && r->0.biome.wf()
                    && r->0.structure_starts.wf()
            },
    {
        if self.next_distance > self.request.radius {
            return None;
        }
        let d = self.next_distance;
        let terrain = RingIterator::new(self.request.origin, d, d);
        let unit = WorkUnit {
            distance: d,
            terrain,
            light: terrain.with_padding(LIGHT_EXTRA),
            carver: terrain.with_padding(CARVER_EXTRA),
            biome: terrain.with_padding(BIOME_EXTRA),
            structure_starts: terrain.with_padding(STRUCTURE_STARTS_EXTRA),
        };
        self.next_distance = d + 1;
        Some(unit)
    }
}

} // verus!
