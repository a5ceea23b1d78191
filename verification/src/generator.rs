use vstd::prelude::*;

use crate::chunk::{fill_biomes, fill_blocks, ChunkSections, ColumnBuffer, SubChunk, MAX_HEIGHT};
use crate::request::{LoadRequest, RequestTraversal, WorkUnit};
use crate::ring::RingIterator;

verus! {

/// World seed a generator instance is bound to.
#[derive(Clone, Copy, PartialEq, Eq, Structural, Debug)]
pub struct Seed(pub u64);

/// Dimension selector; each dimension configures its own vertical shape
/// and fallback block.
#[derive(Clone, Copy, PartialEq, Eq, Structural, Debug)]
pub enum Dimension {
    Overworld,
    Nether,
    End,
}

/// Fallback block-state identifiers per dimension. The block registry
/// collaborator owns the actual state numbering; the scheduling core only
/// stores the identifiers it is configured with.
pub const STONE_BLOCK: u16 = 1;

pub const NETHERRACK_BLOCK: u16 = 2;

pub const END_STONE_BLOCK: u16 = 3;

/// Biome identifier used until biome assignment runs.
pub const PLAINS_BIOME: u8 = 0;

/// Vertical shape of the overworld: bottom block height and total height.
pub const OVERWORLD_MIN_Y: i32 = -64;

pub const OVERWORLD_HEIGHT: u32 = 384;

/// Vertical shape of the nether and the end.
pub const OTHER_MIN_Y: i32 = 0;

pub const OTHER_HEIGHT: u32 = 256;

/// Capability to build a generator bound to a world seed and a dimension.
pub trait GeneratorInit: Sized {
    /// The invariant a freshly built generator establishes.
    spec fn inv(&self) -> bool;

    /// Builds a generator bound to `seed` and `dimension`, deriving the
    /// dimension-specific shape constants and fallback block state.
    fn new(seed: Seed, dimension: Dimension) -> (r: Self)
        ensures
            r.inv(),
    ;
}

/// Capability to accept a load request: the request's full radius
/// expansion is processed, work units in increasing ring-distance order.
pub trait WorldGenerator {
    /// The invariant `request_load` relies on.
    spec fn ready(&self) -> bool;

    /// Processes every work unit of `request`.
    fn request_load(&self, request: LoadRequest)
        requires
            self.ready(),
            request.wf(),
    ;
}

/// The production generator: bound to a seed and dimension, it owns the
/// dimension's shape constants and fallback block state, and turns load
/// requests into filled chunk storage. The noise-router tables and terrain
/// cache it consults are read-only collaborators behind the per-column
/// working buffer.
pub struct VanillaGenerator {
    pub seed: u64,
    pub dimension: Dimension,
    pub min_y: i32,
    pub height: u32,
    pub default_block: u16,
    pub default_biome: u8,
}

impl VanillaGenerator {
    /// The configured vertical shape is a non-empty whole number of
    /// sections within the supported bound.
    pub open spec fn wf(self) -> bool {
        &&& self.height % 16 == 0
        &&& 16 <= self.height <= MAX_HEIGHT
    }

    /// Runtime check of `wf`, for callers outside the verified library.
    pub fn valid(&self) -> (b: bool)
        ensures
            b == self.wf(),
    {
        self.height % 16 == 0 && 16 <= self.height && self.height <= MAX_HEIGHT
    }

    /// The uniform working buffer of the dimension's fallback block and
    /// biome: what the fill step consumes when no terrain-shaping pass has
    /// produced samples for the column.
    pub fn fallback_buffer(&self) -> (b: ColumnBuffer)
        requires
            self.wf(),
        ensures
            b.wf(),
            b.height == self.height,
            forall|x: int, y: int, z: int|
                0 <= x < 16 && 0 <= y < self.height && 0 <= z < 16 ==> #[trigger] b.spec_block(
                    x,
                    y,
                    z,
                ) == self.default_block,
            forall|x: int, y: int, z: int|
                0 <= x < 4 && 0 <= y < self.height as int / 4 && 0 <= z < 4
                    ==> #[trigger] b.spec_biome(x, y, z) == self.default_biome,
    {
        ColumnBuffer::uniform(self.height, self.default_block, self.default_biome)
    }

    /// Column fill: builds the column's chunk storage — one section per 16
    /// blocks of the configured height, bottom at `min_y` — and copies
    /// every block-state and biome sample of the working buffer into the
    /// cell of the section holding it.
    pub fn generate_column(&self, buffer: &ColumnBuffer) -> (c: ChunkSections)
        requires
            self.wf(),
            buffer.wf(),
            buffer.height == self.height,
        ensures
            c.wf(),
            c.min_y == self.min_y,
            c.sections@.len() == self.height as int / 16,
            forall|si: int, x: int, l: int, z: int|
                #![trigger c.sections@[si].spec_block(x, l, z)]
                0 <= si < c.sections@.len() && 0 <= x < 16 && 0 <= l < 16 && 0 <= z < 16
                    ==> c.sections@[si].spec_block(x, l, z) == buffer.spec_block(x, si * 16 + l, z),
            forall|si: int, x: int, l: int, z: int|
                #![trigger c.sections@[si].spec_biome(x, l, z)]
                0 <= si < c.sections@.len() && 0 <= x < 4 && 0 <= l < 4 && 0 <= z < 4
                    ==> c.sections@[si].spec_biome(x, l, z) == buffer.spec_biome(x, si * 4 + l, z),
    {
        let count = (self.height / 16) as usize;
        let mut stack: Vec<SubChunk> = Vec::new();
        let mut i: usize = 0;
        while i < count
            invariant
                i <= count,
                stack@.len() == i,
                forall|k: int| 0 <= k < i ==> (#[trigger] stack@[k]).wf(),
            decreases count - i,
        {
            stack.push(SubChunk::filled(self.default_block, self.default_biome));
            i = i + 1;
        }
        let mut c = ChunkSections { sections: stack, min_y: self.min_y };
        fill_biomes(&mut c, buffer);
        let ghost mid = c;
        fill_blocks(&mut c, buffer);
        proof {
            assert forall|si: int, x: int, l: int, z: int|
                0 <= si < c.sections@.len() && 0 <= x < 4 && 0 <= l < 4 && 0 <= z
                    < 4 implies #[trigger] c.sections@[si].spec_biome(x, l, z)
                == buffer.spec_biome(x, si * 4 + l, z) by {
                assert(si * 4 + l < buffer.spec_biome_layers());
                assert(c.sections@[si].biomes == mid.sections@[si].biomes);
                assert(mid.sections@[si].spec_biome(x, l, z) == buffer.spec_biome(
                    x,
                    si * 4 + l,
                    z,
                ));
            }
        }
        c
    }

    /// Executes one work unit: one filled chunk storage per column of the
    /// unit's terrain-stage traversal, in traversal order, each filled
    /// from the fallback buffer until a terrain-shaping pass supplies
    /// samples. The caller's world layer owns the hand-off of the
    /// storages.
    pub fn execute_unit(&self, unit: &WorkUnit) -> (out: Vec<ChunkSections>)
        requires
            self.wf(),
            unit.terrain.wf(),
        ensures
            out@.len() == unit.terrain.count(),
            forall|i: int|
                0 <= i < out@.len() ==> (#[trigger] out@[i]).wf() && out@[i].min_y == self.min_y
                    && out@[i].sections@.len() == self.height as int / 16,
            forall|i: int, si: int, x: int, l: int, z: int|
                #![trigger out@[i].sections@[si].spec_block(x, l, z)]
                0 <= i < out@.len() && 0 <= si < out@[i].sections@.len() && 0 <= x < 16 && 0 <= l
                    < 16 && 0 <= z < 16 ==> out@[i].sections@[si].spec_block(x, l, z)
                    == self.default_block,
            forall|i: int, si: int, x: int, l: int, z: int|
                #![trigger out@[i].sections@[si].spec_biome(x, l, z)]
                0 <= i < out@.len() && 0 <= si < out@[i].sections@.len() && 0 <= x < 4 && 0 <= l
                    < 4 && 0 <= z < 4 ==> out@[i].sections@[si].spec_biome(x, l, z)
                    == self.default_biome,
    {
        let buffer = self.fallback_buffer();
        let mut cursor: RingIterator = unit.terrain;
        let mut out: Vec<ChunkSections> = Vec::new();
        while !cursor.is_finished()
            invariant
                self.wf(),
                cursor.wf(),
                buffer.wf(),
                buffer.height == self.height,
                forall|x: int, y: int, z: int|
                    0 <= x < 16 && 0 <= y < self.height && 0 <= z < 16
                        ==> #[trigger] buffer.spec_block(x, y, z) == self.default_block,
                forall|x: int, y: int, z: int|
                    0 <= x < 4 && 0 <= y < self.height as int / 4 && 0 <= z < 4
                        ==> #[trigger] buffer.spec_biome(x, y, z) == self.default_biome,
                out@.len() + cursor.count() == unit.terrain.count(),
                forall|i: int|
                    0 <= i < out@.len() ==> (#[trigger] out@[i]).wf() && out@[i].min_y
                        == self.min_y && out@[i].sections@.len() == self.height as int / 16,
                forall|i: int, si: int, x: int, l: int, z: int|
                    #![trigger out@[i].sections@[si].spec_block(x, l, z)]
                    0 <= i < out@.len() && 0 <= si < out@[i].sections@.len() && 0 <= x < 16 && 0
                        <= l < 16 && 0 <= z < 16 ==> out@[i].sections@[si].spec_block(x, l, z)
                        == self.default_block,
                forall|i: int, si: int, x: int, l: int, z: int|
                    #![trigger out@[i].sections@[si].spec_biome(x, l, z)]
                    0 <= i < out@.len() && 0 <= si < out@[i].sections@.len() && 0 <= x < 4 && 0
                        <= l < 4 && 0 <= z < 4 ==> out@[i].sections@[si].spec_biome(x, l, z)
                        == self.default_biome,
            decreases cursor.count(),
        {
            proof {
                cursor.lemma_count_step();
            }
            let _ = cursor.next();
            let storage = self.generate_column(&buffer);
            proof {
                assert forall|si: int, x: int, l: int, z: int|
                    0 <= si < storage.sections@.len() && 0 <= x < 16 && 0 <= l < 16 && 0 <= z
                        < 16 implies #[trigger] storage.sections@[si].spec_block(x, l, z)
                    == self.default_block by {
                    assert(storage.sections@[si].spec_block(x, l, z) == buffer.spec_block(
                        x,
                        si * 16 + l,
                        z,
                    ));
                    assert(0 <= si * 16 + l < self.height);
                }
                assert forall|si: int, x: int, l: int, z: int|
                    0 <= si < storage.sections@.len() && 0 <= x < 4 && 0 <= l < 4 && 0 <= z
                        < 4 implies #[trigger] storage.sections@[si].spec_biome(x, l, z)
                    == self.default_biome by {
                    assert(storage.sections@[si].spec_biome(x, l, z) == buffer.spec_biome(
                        x,
                        si * 4 + l,
                        z,
                    ));
                    assert(0 <= si * 4 + l < self.height as int / 4);
                }
            }
            out.push(storage);
        }
        out
    }
}

/// The configuration a generator bound to `seed` and `dimension` carries:
/// the seed and dimension themselves, the dimension's vertical shape, and
/// the dimension's fallback block and biome. This pins every field, so
/// construction is a function of its two inputs.
pub open spec fn spec_configured(seed: Seed, dimension: Dimension, r: VanillaGenerator) -> bool {
    &&& r.seed == seed.0
    &&& r.dimension == dimension
    &&& r.default_biome == PLAINS_BIOME
    &&& match dimension {
        Dimension::Overworld => r.min_y == OVERWORLD_MIN_Y && r.height == OVERWORLD_HEIGHT
            && r.default_block == STONE_BLOCK,
        Dimension::Nether => r.min_y == OTHER_MIN_Y && r.height == OTHER_HEIGHT && r.default_block
            == NETHERRACK_BLOCK,
        Dimension::End => r.min_y == OTHER_MIN_Y && r.height == OTHER_HEIGHT && r.default_block
            == END_STONE_BLOCK,
    }
}

/// Construction law: the generator is determined by its inputs — two
/// generators configured for the same seed and dimension are identical.
pub proof fn lemma_construction_deterministic(
    seed: Seed,
    dimension: Dimension,
    a: VanillaGenerator,
    b: VanillaGenerator,
)
    requires
        spec_configured(seed, dimension, a),
        spec_configured(seed, dimension, b),
    ensures
        a == b,
{
}

impl GeneratorInit for VanillaGenerator {
    open spec fn inv(&self) -> bool {
        self.wf()
    }

    fn new(seed: Seed, dimension: Dimension) -> (r: Self)
        ensures
            spec_configured(seed, dimension, r),
    {
        match dimension {
            Dimension::Overworld => VanillaGenerator {
                seed: seed.0,
                dimension,
                min_y: OVERWORLD_MIN_Y,
                height: OVERWORLD_HEIGHT,
                default_block: STONE_BLOCK,
                default_biome: PLAINS_BIOME,
            },
            Dimension::Nether => VanillaGenerator {
                seed: seed.0,
                dimension,
                min_y: OTHER_MIN_Y,
                height: OTHER_HEIGHT,
                default_block: NETHERRACK_BLOCK,
                default_biome: PLAINS_BIOME,
            },
            Dimension::End => VanillaGenerator {
                seed: seed.0,
                dimension,
                min_y: OTHER_MIN_Y,
                height: OTHER_HEIGHT,
                default_block: END_STONE_BLOCK,
                default_biome: PLAINS_BIOME,
            },
        }
    }
}

impl WorldGenerator for VanillaGenerator {
    open spec fn ready(&self) -> bool {
        self.wf()
    }

    fn request_load(&self, request: LoadRequest) {
        let mut traversal = RequestTraversal::new(request);
        while !traversal.is_finished()
            invariant
                self.wf(),
                traversal.wf(),
            decreases traversal.remaining(),
        {
            let unit = match traversal.next() {
                Some(u) => u,
                None => unreached(),
            };
            // The storages belong to the caller's world layer; a scheduling
            // loop that wants them drives `execute_unit` itself, one work
            // unit at a time.
            let _ = self.execute_unit(&unit);
        }
    }
}

/// Test double for the generator capability: accepts a request and walks
/// its full expansion without sampling noise or producing storage, so the
/// scheduling layers can run against it.
pub struct NullGenerator;

impl WorldGenerator for NullGenerator {
    open spec fn ready(&self) -> bool {
        true
    }

    fn request_load(&self, request: LoadRequest) {
        let mut traversal = RequestTraversal::new(request);
        while !traversal.is_finished()
            invariant
                traversal.wf(),
            decreases traversal.remaining(),
        {
            let _ = traversal.next();
        }
    }
}

} // verus!
