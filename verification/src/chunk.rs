use vstd::prelude::*;

verus! {

/// Blocks per axis of one vertical section.
pub const SECTION_SIZE: usize = 16;

/// Biome cells per axis of one vertical section: biomes are stored at
/// quarter resolution.
pub const BIOME_SECTION_SIZE: usize = 4;

/// Block cells of one section.
pub const SECTION_VOLUME: usize = SECTION_SIZE * SECTION_SIZE * SECTION_SIZE;

/// Biome cells of one section.
pub const BIOME_SECTION_VOLUME: usize = BIOME_SECTION_SIZE * BIOME_SECTION_SIZE
    * BIOME_SECTION_SIZE;

/// Largest vertical shape (in blocks) any dimension configures.
pub const MAX_HEIGHT: u32 = 4096;

/// Flat index of the block cell `(x, y, z)` of one section, `0 <= x, y, z < 16`.
pub open spec fn block_cell(x: int, y: int, z: int) -> int {
    (y * 16 + z) * 16 + x
}

/// Flat index of the biome cell `(x, y, z)` of one section, `0 <= x, y, z < 4`.
pub open spec fn biome_cell(x: int, y: int, z: int) -> int {
    (y * 4 + z) * 4 + x
}

/// One vertical section of chunk storage: a block-state grid and a
/// biome-id grid at their two granularities. Light data lives with the
/// collaborating light engine and is attached by the world layer.
#[derive(Clone, Debug)]
pub struct SubChunk {
    pub block_states: Vec<u16>,
    pub biomes: Vec<u8>,
}

impl SubChunk {
    /// Both grids hold exactly one value per cell.
    pub open spec fn wf(self) -> bool {
        &&& self.block_states@.len() == SECTION_VOLUME
        &&& self.biomes@.len() == BIOME_SECTION_VOLUME
    }

    /// The block state stored at cell `(x, y, z)`.
    pub open spec fn spec_block(self, x: int, y: int, z: int) -> u16 {
        self.block_states@[block_cell(x, y, z)]
    }

    /// The biome id stored at cell `(x, y, z)`.
    pub open spec fn spec_biome(self, x: int, y: int, z: int) -> u8 {
        self.biomes@[biome_cell(x, y, z)]
    }

    /// A section with every block cell set to `block` and every biome cell
    /// set to `biome`.
    pub fn filled(block: u16, biome: u8) -> (s: SubChunk)
        ensures
            s.wf(),
            forall|x: int, y: int, z: int|
                0 <= x < 16 && 0 <= y < 16 && 0 <= z < 16 ==> #[trigger] s.spec_block(x, y, z)
                    == block,
            forall|x: int, y: int, z: int|
                0 <= x < 4 && 0 <= y < 4 && 0 <= z < 4 ==> #[trigger] s.spec_biome(x, y, z)
                    == biome,
    {
        let mut block_states: Vec<u16> = Vec::new();
        let mut i: usize = 0;
        while i < SECTION_VOLUME
            invariant
                i <= SECTION_VOLUME,
                block_states@.len() == i,
                forall|k: int| 0 <= k < i ==> block_states@[k] == block,
            decreases SECTION_VOLUME - i,
        {
            block_states.push(block);
            i = i + 1;
        }
        let mut biomes: Vec<u8> = Vec::new();
        let mut j: usize = 0;
        while j < BIOME_SECTION_VOLUME
            invariant
                j <= BIOME_SECTION_VOLUME,
                biomes@.len() == j,
                forall|k: int| 0 <= k < j ==> biomes@[k] == biome,
            decreases BIOME_SECTION_VOLUME - j,
        {
            biomes.push(biome);
            j = j + 1;
        }
        SubChunk { block_states, biomes }
    }

    /// Stores `id` in the block cell `(x, y, z)`; no other cell changes.
    pub fn set_block(&mut self, x: usize, y: usize, z: usize, id: u16)
        requires
            old(self).wf(),
            x < 16,
            y < 16,
            z < 16,
        ensures
            final(self).wf(),
            final(self).block_states@ == old(self).block_states@.update(
                block_cell(x as int, y as int, z as int),
                id,
            ),
            final(self).biomes == old(self).biomes,
    {
        let idx = (y * 16 + z) * 16 + x;
        self.block_states[idx] = id;
    }

    /// Stores `id` in the biome cell `(x, y, z)`; no other cell changes.
    pub fn set_biome(&mut self, x: usize, y: usize, z: usize, id: u8)
        requires
            old(self).wf(),
            x < 4,
            y < 4,
            z < 4,
        ensures
            final(self).wf(),
            final(self).biomes@ == old(self).biomes@.update(
                biome_cell(x as int, y as int, z as int),
                id,
            ),
            final(self).block_states == old(self).block_states,
    {
        let idx = (y * 4 + z) * 4 + x;
        self.biomes[idx] = id;
    }

    /// The block state stored at cell `(x, y, z)`.
    pub fn block_at(&self, x: usize, y: usize, z: usize) -> (r: u16)
        requires
            self.wf(),
            x < 16,
            y < 16,
            z < 16,
        ensures
            r == self.spec_block(x as int, y as int, z as int),
    {
        self.block_states[(y * 16 + z) * 16 + x]
    }

    /// The biome id stored at cell `(x, y, z)`.
    pub fn biome_at(&self, x: usize, y: usize, z: usize) -> (r: u8)
        requires
            self.wf(),
            x < 4,
            y < 4,
            z < 4,
        ensures
            r == self.spec_biome(x as int, y as int, z as int),
    {
        self.biomes[(y * 4 + z) * 4 + x]
    }
}

/// The chunk storage of one column: its vertical stack of sections and the
/// world-space height of the stack's bottom block.
#[derive(Clone, Debug)]
pub struct ChunkSections {
    pub sections: Vec<SubChunk>,
    pub min_y: i32,
}

impl ChunkSections {
    /// Every section holds its full grids.
    pub open spec fn wf(self) -> bool {
        forall|i: int| 0 <= i < self.sections@.len() ==> (#[trigger] self.sections@[i]).wf()
    }

    /// Number of sections.
    pub fn section_count(&self) -> (n: usize)
        ensures
            n == self.sections@.len(),
    {
        self.sections.len()
    }
}

/// The per-column working buffer a terrain-shaping pass hands to the fill
/// step: one block-state sample per block cell of the column and one biome
/// sample per biome cell, for a column of `height` blocks. The fill step
/// consumes it as a pure lookup table; producing it is the noise-router
/// collaborator's business.
#[derive(Clone, Debug)]
pub struct ColumnBuffer {
    pub height: u32,
    pub blocks: Vec<u16>,
    pub biomes: Vec<u8>,
}

/// Flat index of the block sample of `(x, y, z)`, `y` counted over the
/// whole column.
pub open spec fn buffer_block_cell(x: int, y: int, z: int) -> int {
    (y * 16 + z) * 16 + x
}

/// Flat index of the biome sample of `(x, y, z)`, `y` counted over the
/// whole column at biome granularity.
pub open spec fn buffer_biome_cell(x: int, y: int, z: int) -> int {
    (y * 4 + z) * 4 + x
}

impl ColumnBuffer {
    /// Number of biome layers of the column: a quarter of its block height.
    pub open spec fn spec_biome_layers(self) -> int {
        self.height as int / 4
    }

    /// The height is a whole number of sections within the configured
    /// bound, and there is exactly one sample per cell.
    pub open spec fn wf(self) -> bool {
        &&& self.height % 16 == 0
        &&& self.height <= MAX_HEIGHT
        &&& self.blocks@.len() == self.height as int * 256
        &&& self.biomes@.len() == self.spec_biome_layers() * 16
    }

    /// The block-state sample of cell `(x, y, z)`.
    pub open spec fn spec_block(self, x: int, y: int, z: int) -> u16 {
        self.blocks@[buffer_block_cell(x, y, z)]
    }

    /// The biome sample of cell `(x, y, z)` at biome granularity.
    pub open spec fn spec_biome(self, x: int, y: int, z: int) -> u8 {
        self.biomes@[buffer_biome_cell(x, y, z)]
    }

    /// A buffer with every block sample equal to `block` and every biome
    /// sample equal to `biome`: the fallback a generator uses when no
    /// shaping pass ran.
    pub fn uniform(height: u32, block: u16, biome: u8) -> (b: ColumnBuffer)
        requires
            height % 16 == 0,
            height <= MAX_HEIGHT,
        ensures
            b.wf(),
            b.height == height,
            forall|x: int, y: int, z: int|
                0 <= x < 16 && 0 <= y < height && 0 <= z < 16 ==> #[trigger] b.spec_block(x, y, z)
                    == block,
            forall|x: int, y: int, z: int|
                0 <= x < 4 && 0 <= y < height as int / 4 && 0 <= z < 4 ==> #[trigger] b.spec_biome(
                    x,
                    y,
                    z,
                ) == biome,
    {
        let block_total: usize = (height as usize) * 256;
        let biome_total: usize = ((height / 4) as usize) * 16;
        let mut blocks: Vec<u16> = Vec::new();
        let mut i: usize = 0;
        while i < block_total
            invariant
                i <= block_total,
                blocks@.len() == i,
                forall|k: int| 0 <= k < i ==> blocks@[k] == block,
            decreases block_total - i,
        {
            blocks.push(block);
            i = i + 1;
        }
        let mut biomes: Vec<u8> = Vec::new();
        let mut j: usize = 0;
        while j < biome_total
            invariant
                j <= biome_total,
                biomes@.len() == j,
                forall|k: int| 0 <= k < j ==> biomes@[k] == biome,
            decreases biome_total - j,
        {
            biomes.push(biome);
            j = j + 1;
        }
        ColumnBuffer { height, blocks, biomes }
    }

    /// Overwrites the block sample of cell `(x, y, z)`.
    pub fn set_block(&mut self, x: usize, y: usize, z: usize, id: u16)
        requires
            old(self).wf(),
            x < 16,
            z < 16,
            y < old(self).height,
        ensures
            final(self).wf(),
            final(self).height == old(self).height,
            final(self).blocks@ == old(self).blocks@.update(
                buffer_block_cell(x as int, y as int, z as int),
                id,
            ),
            final(self).biomes == old(self).biomes,
    {
        let idx = (y * 16 + z) * 16 + x;
        self.blocks[idx] = id;
    }

    /// Overwrites the biome sample of cell `(x, y, z)`.
    pub fn set_biome(&mut self, x: usize, y: usize, z: usize, id: u8)
        requires
            old(self).wf(),
            x < 4,
            z < 4,
            (y as int) < old(self).spec_biome_layers(),
        ensures
            final(self).wf(),
            final(self).height == old(self).height,
            final(self).biomes@ == old(self).biomes@.update(
                buffer_biome_cell(x as int, y as int, z as int),
                id,
            ),
            final(self).blocks == old(self).blocks,
    {
        let idx = (y * 4 + z) * 4 + x;
        self.biomes[idx] = id;
    }

    /// The block-state sample of cell `(x, y, z)`.
    pub fn block_at(&self, x: usize, y: usize, z: usize) -> (r: u16)
        requires
            self.wf(),
            x < 16,
            z < 16,
            y < self.height,
        ensures
            r == self.spec_block(x as int, y as int, z as int),
    {
        self.blocks[(y * 16 + z) * 16 + x]
    }

    /// The biome sample of cell `(x, y, z)`.
    pub fn biome_at(&self, x: usize, y: usize, z: usize) -> (r: u8)
        requires
            self.wf(),
            x < 4,
            z < 4,
            (y as int) < self.spec_biome_layers(),
        ensures
            r == self.spec_biome(x as int, y as int, z as int),
    {
        self.biomes[(y * 4 + z) * 4 + x]
    }

    /// Number of biome layers of the column.
    pub fn biome_layers(&self) -> (n: u32)
        ensures
            n as int == self.spec_biome_layers(),
    {
        self.height / 4
    }
}

/// Writes one biome layer of the buffer into the section holding it: every
/// biome cell of layer `y` (within-section layer `y % 4` of section
/// `y / 4`) takes the buffer's sample; no other cell of any section and no
/// block grid changes.
fn fill_biome_layer(sections: &mut ChunkSections, buffer: &ColumnBuffer, y: usize)
    requires
        old(sections).wf(),
        buffer.wf(),
        (y as int) < buffer.spec_biome_layers(),
        y / 4 < old(sections).sections@.len(),
    ensures
        final(sections).wf(),
        final(sections).sections@.len() == old(sections).sections@.len(),
        final(sections).min_y == old(sections).min_y,
        forall|i: int|
            0 <= i < old(sections).sections@.len() && i != y / 4 ==> final(sections).sections@[i]
                == old(sections).sections@[i],
        final(sections).sections@[y as int / 4].block_states == old(sections).sections@[y as int
            / 4].block_states,
        forall|x: int, z: int|
            0 <= x < 4 && 0 <= z < 4 ==> final(sections).sections@[y as int / 4].spec_biome(
                x,
                y as int % 4,
                z,
            ) == buffer.spec_biome(x, y as int, z),
        forall|x: int, l: int, z: int|
            #![trigger final(sections).sections@[y as int / 4].spec_biome(x, l, z)]
            0 <= x < 4 && 0 <= l < 4 && 0 <= z < 4 && l != y as int % 4 ==> final(sections).sections@[y as int / 4].spec_biome(x, l, z) == old(sections).sections@[y as int
                / 4].spec_biome(x, l, z),
{
    let si = y / 4;
    let ly = y % 4;
    let mut z: usize = 0;
    while z < 4
        invariant
            z <= 4,
            si == y / 4,
            ly == y % 4,
            buffer.wf(),
            (y as int) < buffer.spec_biome_layers(),
            si < sections.sections@.len(),
            sections.wf(),
            sections.sections@.len() == old(sections).sections@.len(),
            sections.min_y == old(sections).min_y,
            forall|i: int|
                0 <= i < old(sections).sections@.len() && i != si as int ==> sections.sections@[i]
                    == old(sections).sections@[i],
            sections.sections@[si as int].block_states == old(sections).sections@[si as
                int].block_states,
            forall|xx: int, zz: int|
                0 <= xx < 4 && 0 <= zz < z ==> sections.sections@[si as int].spec_biome(
                    xx,
                    ly as int,
                    zz,
                ) == buffer.spec_biome(xx, y as int, zz),
            forall|xx: int, l: int, zz: int|
                #![trigger sections.sections@[si as int].spec_biome(xx, l, zz)]
                0 <= xx < 4 && 0 <= l < 4 && 0 <= zz < 4 && l != ly as int ==> sections.sections@[si
                    as int].spec_biome(xx, l, zz) == old(sections).sections@[si as int].spec_biome(
                    xx,
                    l,
                    zz,
                ),
        decreases 4 - z,
    {
        let mut x: usize = 0;
        while x < 4
            invariant
                x <= 4,
                z < 4,
                si == y / 4,
                ly == y % 4,
                buffer.wf(),
                (y as int) < buffer.spec_biome_layers(),
                si < sections.sections@.len(),
                sections.wf(),
                sections.sections@.len() == old(sections).sections@.len(),
                sections.min_y == old(sections).min_y,
                forall|i: int|
                    0 <= i < old(sections).sections@.len() && i != si as int
                        ==> sections.sections@[i] == old(sections).sections@[i],
                sections.sections@[si as int].block_states == old(sections).sections@[si as
                    int].block_states,
                forall|xx: int, zz: int|
                    0 <= xx < 4 && 0 <= zz < z ==> sections.sections@[si as int].spec_biome(
                        xx,
                        ly as int,
                        zz,
                    ) == buffer.spec_biome(xx, y as int, zz),
                forall|xx: int|
                    0 <= xx < x ==> sections.sections@[si as int].spec_biome(
                        xx,
                        ly as int,
                        z as int,
                    ) == buffer.spec_biome(xx, y as int, z as int),
                forall|xx: int, l: int, zz: int|
                    #![trigger sections.sections@[si as int].spec_biome(xx, l, zz)]
                    0 <= xx < 4 && 0 <= l < 4 && 0 <= zz < 4 && l != ly as int
                        ==> sections.sections@[si as int].spec_biome(xx, l, zz) == old(
                        sections,
                    ).sections@[si as int].spec_biome(xx, l, zz),
            decreases 4 - x,
        {
            let ghost pre_sec = sections.sections@[si as int];
            let id = buffer.biome_at(x, y, z);
            sections.sections[si].set_biome(x, ly, z, id);
            proof {
                assert forall|xx: int, l: int, zz: int|
                    0 <= xx < 4 && 0 <= l < 4 && 0 <= zz < 4 && l != ly as int implies #[trigger] sections.sections@[si as int].spec_biome(xx, l, zz) == pre_sec.spec_biome(
                    xx,
                    l,
                    zz,
                ) by {
                    assert(biome_cell(xx, l, zz) != biome_cell(x as int, ly as int, z as int));
                }
            }
            x = x + 1;
        }
        z = z + 1;
    }
}

/// Biome fill: copies every biome sample of the buffer into the biome grid
/// of the section holding its layer; layers whose section lies outside the
/// vertical shape are skipped; block grids are untouched.
pub fn fill_biomes(sections: &mut ChunkSections, buffer: &ColumnBuffer)
    requires
        old(sections).wf(),
        buffer.wf(),
    ensures
        final(sections).wf(),
        final(sections).sections@.len() == old(sections).sections@.len(),
        final(sections).min_y == old(sections).min_y,
        forall|i: int|
            0 <= i < old(sections).sections@.len() ==> (#[trigger] final(sections).sections@[i]).block_states == old(sections).sections@[i].block_states,
        forall|si: int, x: int, l: int, z: int|
            #![trigger final(sections).sections@[si].spec_biome(x, l, z)]
            0 <= si < old(sections).sections@.len() && 0 <= x < 4 && 0 <= l < 4 && 0 <= z < 4 && si
                * 4 + l < buffer.spec_biome_layers() ==> final(sections).sections@[si].spec_biome(x, l, z) == buffer.spec_biome(x, si * 4 + l, z),
        forall|i: int|
            0 <= i < old(sections).sections@.len() && 4 * i >= buffer.spec_biome_layers()
                ==> final(sections).sections@[i] == old(sections).sections@[i],
{
    let layers = buffer.biome_layers() as usize;
    let mut y: usize = 0;
    while y < layers
        invariant
            y <= layers,
            layers as int == buffer.spec_biome_layers(),
            buffer.wf(),
            sections.wf(),
            sections.sections@.len() == old(sections).sections@.len(),
            sections.min_y == old(sections).min_y,
            forall|i: int|
                0 <= i < old(sections).sections@.len() ==> (#[trigger] sections.sections@[i]).block_states
                    == old(sections).sections@[i].block_states,
            forall|si: int, x: int, l: int, z: int|
                #![trigger sections.sections@[si].spec_biome(x, l, z)]
                0 <= si < old(sections).sections@.len() && 0 <= x < 4 && 0 <= l < 4 && 0 <= z < 4
                    && si * 4 + l < y ==> sections.sections@[si].spec_biome(x, l, z)
                    == buffer.spec_biome(x, si * 4 + l, z),
            forall|i: int|
                0 <= i < old(sections).sections@.len() && 4 * i >= y ==> sections.sections@[i]
                    == old(sections).sections@[i],
        decreases layers - y,
    {
        let si = y / 4;
        if si < sections.sections.len() {
            fill_biome_layer(sections, buffer, y);
        }
        y = y + 1;
    }
}

/// Writes one block layer of the buffer into the section holding it: every
/// block cell of layer `y` (within-section layer `y % 16` of section
/// `y / 16`) takes the buffer's sample; no other cell of any section and
/// no biome grid changes.
fn fill_block_layer(sections: &mut ChunkSections, buffer: &ColumnBuffer, y: usize)
    requires
        old(sections).wf(),
        buffer.wf(),
        y < buffer.height,
        y / 16 < old(sections).sections@.len(),
    ensures
        final(sections).wf(),
        final(sections).sections@.len() == old(sections).sections@.len(),
        final(sections).min_y == old(sections).min_y,
        forall|i: int|
            0 <= i < old(sections).sections@.len() && i != y / 16 ==> final(sections).sections@[i]
                == old(sections).sections@[i],
        final(sections).sections@[y as int / 16].biomes == old(sections).sections@[y as int
            / 16].biomes,
        forall|x: int, z: int|
            0 <= x < 16 && 0 <= z < 16 ==> final(sections).sections@[y as int / 16].spec_block(
                x,
                y as int % 16,
                z,
            ) == buffer.spec_block(x, y as int, z),
        forall|x: int, l: int, z: int|
            #![trigger final(sections).sections@[y as int / 16].spec_block(x, l, z)]
            0 <= x < 16 && 0 <= l < 16 && 0 <= z < 16 && l != y as int % 16 ==> final(sections).sections@[y as int / 16].spec_block(x, l, z) == old(sections).sections@[y as int
                / 16].spec_block(x, l, z),
{
    let si = y / 16;
    let ly = y % 16;
    let mut z: usize = 0;
    while z < 16
        invariant
            z <= 16,
            si == y / 16,
            ly == y % 16,
            buffer.wf(),
            y < buffer.height,
            si < sections.sections@.len(),
            sections.wf(),
            sections.sections@.len() == old(sections).sections@.len(),
            sections.min_y == old(sections).min_y,
            forall|i: int|
                0 <= i < old(sections).sections@.len() && i != si as int ==> sections.sections@[i]
                    == old(sections).sections@[i],
            sections.sections@[si as int].biomes == old(sections).sections@[si as int].biomes,
            forall|xx: int, zz: int|
                0 <= xx < 16 && 0 <= zz < z ==> sections.sections@[si as int].spec_block(
                    xx,
                    ly as int,
                    zz,
                ) == buffer.spec_block(xx, y as int, zz),
            forall|xx: int, l: int, zz: int|
                #![trigger sections.sections@[si as int].spec_block(xx, l, zz)]
                0 <= xx < 16 && 0 <= l < 16 && 0 <= zz < 16 && l != ly as int
                    ==> sections.sections@[si as int].spec_block(xx, l, zz) == old(
                    sections,
                ).sections@[si as int].spec_block(xx, l, zz),
        decreases 16 - z,
    {
        let mut x: usize = 0;
        while x < 16
            invariant
                x <= 16,
                z < 16,
                si == y / 16,
                ly == y % 16,
                buffer.wf(),
                y < buffer.height,
                si < sections.sections@.len(),
                sections.wf(),
                sections.sections@.len() == old(sections).sections@.len(),
                sections.min_y == old(sections).min_y,
                forall|i: int|
                    0 <= i < old(sections).sections@.len() && i != si as int
                        ==> sections.sections@[i] == old(sections).sections@[i],
                sections.sections@[si as int].biomes == old(sections).sections@[si as int].biomes,
                forall|xx: int, zz: int|
                    0 <= xx < 16 && 0 <= zz < z ==> sections.sections@[si as int].spec_block(
                        xx,
                        ly as int,
                        zz,
                    ) == buffer.spec_block(xx, y as int, zz),
                forall|xx: int|
                    0 <= xx < x ==> sections.sections@[si as int].spec_block(
                        xx,
                        ly as int,
                        z as int,
                    ) == buffer.spec_block(xx, y as int, z as int),
                forall|xx: int, l: int, zz: int|
                    #![trigger sections.sections@[si as int].spec_block(xx, l, zz)]
                    0 <= xx < 16 && 0 <= l < 16 && 0 <= zz < 16 && l != ly as int
                        ==> sections.sections@[si as int].spec_block(xx, l, zz) == old(
                        sections,
                    ).sections@[si as int].spec_block(xx, l, zz),
            decreases 16 - x,
        {
            let ghost pre_sec = sections.sections@[si as int];
            let id = buffer.block_at(x, y, z);
            sections.sections[si].set_block(x, ly, z, id);
            proof {
                assert forall|xx: int, l: int, zz: int|
                    0 <= xx < 16 && 0 <= l < 16 && 0 <= zz < 16 && l != ly as int implies #[trigger] sections.sections@[si as int].spec_block(xx, l, zz) == pre_sec.spec_block(
                    xx,
                    l,
                    zz,
                ) by {
                    assert(block_cell(xx, l, zz) != block_cell(x as int, ly as int, z as int));
                }
            }
            x = x + 1;
        }
        z = z + 1;
    }
}

/// Block fill: copies every block-state sample of the buffer into the
/// block grid of the section holding its layer; layers whose section lies
/// outside the vertical shape are skipped; biome grids are untouched.
pub fn fill_blocks(sections: &mut ChunkSections, buffer: &ColumnBuffer)
    requires
        old(sections).wf(),
        buffer.wf(),
    ensures
        final(sections).wf(),
        final(sections).sections@.len() == old(sections).sections@.len(),
        final(sections).min_y == old(sections).min_y,
        forall|i: int|
            0 <= i < old(sections).sections@.len() ==> (#[trigger] final(sections).sections@[i]).biomes == old(sections).sections@[i].biomes,
        forall|si: int, x: int, l: int, z: int|
            #![trigger final(sections).sections@[si].spec_block(x, l, z)]
            0 <= si < old(sections).sections@.len() && 0 <= x < 16 && 0 <= l < 16 && 0 <= z < 16
                && si * 16 + l < buffer.height ==> final(sections).sections@[si].spec_block(x, l, z) == buffer.spec_block(x, si * 16 + l, z),
        forall|i: int|
            0 <= i < old(sections).sections@.len() && 16 * i >= buffer.height ==> final(sections).sections@[i] == old(sections).sections@[i],
{
    let height = buffer.height as usize;
    let mut y: usize = 0;
    while y < height
        invariant
            y <= height,
            height == buffer.height,
            buffer.wf(),
            sections.wf(),
            sections.sections@.len() == old(sections).sections@.len(),
            sections.min_y == old(sections).min_y,
            forall|i: int|
                0 <= i < old(sections).sections@.len() ==> (#[trigger] sections.sections@[i]).biomes
                    == old(sections).sections@[i].biomes,
            forall|si: int, x: int, l: int, z: int|
                #![trigger sections.sections@[si].spec_block(x, l, z)]
                0 <= si < old(sections).sections@.len() && 0 <= x < 16 && 0 <= l < 16 && 0 <= z
                    < 16 && si * 16 + l < y ==> sections.sections@[si].spec_block(x, l, z) == buffer.spec_block(x, si * 16 + l, z),
            forall|i: int|
                0 <= i < old(sections).sections@.len() && 16 * i >= y ==> sections.sections@[i]
                    == old(sections).sections@[i],
        decreases height - y,
    {
        let si = y / 16;
        if si < sections.sections.len() {
            fill_block_layer(sections, buffer, y);
        }
        y = y + 1;
    }
}

} // verus!
