use pumpkin_world::chunk::{fill_biomes, fill_blocks, ChunkSections, ColumnBuffer, SubChunk};
use pumpkin_world::column::Column;
use pumpkin_world::generator::{
    Dimension, GeneratorInit, NullGenerator, Seed, VanillaGenerator, WorldGenerator,
    END_STONE_BLOCK, NETHERRACK_BLOCK, OVERWORLD_HEIGHT, OVERWORLD_MIN_Y, PLAINS_BIOME,
    STONE_BLOCK,
};
use pumpkin_world::request::{LoadRequest, RequestTraversal};

#[test]
fn new_derives_dimension_shape_and_fallback_block() {
    let overworld = VanillaGenerator::new(Seed(42), Dimension::Overworld);
    assert_eq!(overworld.min_y, OVERWORLD_MIN_Y);
    assert_eq!(overworld.height, OVERWORLD_HEIGHT);
    assert_eq!(overworld.default_block, STONE_BLOCK);
    assert_eq!(overworld.seed, 42);

    let nether = VanillaGenerator::new(Seed(1), Dimension::Nether);
    assert_eq!(nether.min_y, 0);
    assert_eq!(nether.height, 256);
    assert_eq!(nether.default_block, NETHERRACK_BLOCK);

    let end = VanillaGenerator::new(Seed(1), Dimension::End);
    assert_eq!(end.min_y, 0);
    assert_eq!(end.height, 256);
    assert_eq!(end.default_block, END_STONE_BLOCK);
}

#[test]
fn new_binds_the_result_to_seed_and_dimension() {
    let a = VanillaGenerator::new(Seed(99), Dimension::Nether);
    let b = VanillaGenerator::new(Seed(99), Dimension::Nether);
    assert_eq!(a.seed, 99);
    assert_eq!(a.dimension, Dimension::Nether);
    assert_eq!(a.seed, b.seed);
    assert_eq!(a.dimension, b.dimension);
    assert_eq!(a.min_y, b.min_y);
    assert_eq!(a.height, b.height);
    assert_eq!(a.default_block, b.default_block);
    assert_eq!(a.default_biome, b.default_biome);
}

#[test]
fn storage_shape_follows_the_generator_dimension() {
    let overworld = VanillaGenerator::new(Seed(5), Dimension::Overworld);
    let storage = overworld.generate_column(&overworld.fallback_buffer());
    assert_eq!(storage.section_count(), 24);
    assert_eq!(storage.min_y, -64);

    let nether = VanillaGenerator::new(Seed(5), Dimension::Nether);
    let storage = nether.generate_column(&nether.fallback_buffer());
    assert_eq!(storage.section_count(), 16);
    assert_eq!(storage.min_y, 0);
}

#[test]
fn generate_column_builds_one_section_per_sixteen_blocks() {
    let gen = VanillaGenerator::new(Seed(0), Dimension::Overworld);
    let buffer = gen.fallback_buffer();
    let storage = gen.generate_column(&buffer);
    assert_eq!(storage.section_count(), (OVERWORLD_HEIGHT / 16) as usize);
    assert_eq!(storage.min_y, OVERWORLD_MIN_Y);
    let top = storage.section_count() - 1;
    assert_eq!(storage.sections[0].block_at(0, 0, 0), STONE_BLOCK);
    assert_eq!(storage.sections[top].block_at(15, 15, 15), STONE_BLOCK);
    assert_eq!(storage.sections[top / 2].biome_at(3, 3, 3), PLAINS_BIOME);
}

#[test]
fn block_fill_maps_each_layer_to_its_section_cell() {
    let gen = VanillaGenerator::new(Seed(0), Dimension::Nether);
    let mut buffer = gen.fallback_buffer();
    // Layer 100 lives in section 6 at within-section layer 4.
    buffer.set_block(3, 100, 5, 4242);
    let storage = gen.generate_column(&buffer);
    assert_eq!(storage.sections[6].block_at(3, 4, 5), 4242);
    // Neighbouring cells keep the fallback block.
    assert_eq!(storage.sections[6].block_at(2, 4, 5), NETHERRACK_BLOCK);
    assert_eq!(storage.sections[6].block_at(3, 5, 5), NETHERRACK_BLOCK);
    assert_eq!(storage.sections[5].block_at(3, 4, 5), NETHERRACK_BLOCK);
}

#[test]
fn biome_fill_maps_each_layer_to_its_section_cell() {
    let gen = VanillaGenerator::new(Seed(0), Dimension::Nether);
    let mut buffer = gen.fallback_buffer();
    // Biome layer 50 lives in section 12 at within-section layer 2.
    buffer.set_biome(1, 50, 2, 77);
    let storage = gen.generate_column(&buffer);
    assert_eq!(storage.sections[12].biome_at(1, 2, 2), 77);
    assert_eq!(storage.sections[12].biome_at(0, 2, 2), PLAINS_BIOME);
    assert_eq!(storage.sections[11].biome_at(1, 2, 2), PLAINS_BIOME);
}

#[test]
fn fills_skip_sections_outside_the_vertical_shape() {
    // Storage two sections tall, buffer covering four: the two missing
    // sections are skipped, the present ones filled.
    let buffer = ColumnBuffer::uniform(64, 9, 4);
    let mut storage = ChunkSections { sections: vec![SubChunk::filled(0, 0), SubChunk::filled(0, 0)], min_y: 0 };
    fill_biomes(&mut storage, &buffer);
    fill_blocks(&mut storage, &buffer);
    assert_eq!(storage.sections.len(), 2);
    assert_eq!(storage.sections[0].block_at(0, 0, 0), 9);
    assert_eq!(storage.sections[1].block_at(15, 15, 15), 9);
    assert_eq!(storage.sections[1].biome_at(3, 3, 3), 4);
}

#[test]
fn execute_unit_generates_one_storage_per_terrain_column() {
    let gen = VanillaGenerator::new(Seed(7), Dimension::End);
    let request = LoadRequest { origin: Column { x: 0, z: 0 }, radius: 1 };
    let mut traversal = RequestTraversal::new(request);

    let unit0 = traversal.next().expect("unit at distance 0");
    let out0 = gen.execute_unit(&unit0);
    assert_eq!(out0.len(), 1);

    let unit1 = traversal.next().expect("unit at distance 1");
    let out1 = gen.execute_unit(&unit1);
    assert_eq!(out1.len(), 8);
    for storage in &out1 {
        assert_eq!(storage.section_count(), 16);
        assert_eq!(storage.sections[0].block_at(1, 1, 1), END_STONE_BLOCK);
    }
}

#[test]
fn request_load_accepts_a_request_on_both_variants() {
    let gen = VanillaGenerator::new(Seed(3), Dimension::Nether);
    gen.request_load(LoadRequest { origin: Column { x: 2, z: -2 }, radius: 0 });
    let fake = NullGenerator;
    fake.request_load(LoadRequest { origin: Column { x: 0, z: 0 }, radius: 30 });
}

#[test]
fn uniform_buffer_holds_the_given_samples_everywhere() {
    let buffer = ColumnBuffer::uniform(32, 11, 5);
    assert_eq!(buffer.height, 32);
    assert_eq!(buffer.block_at(0, 0, 0), 11);
    assert_eq!(buffer.block_at(15, 31, 15), 11);
    assert_eq!(buffer.biome_at(0, 0, 0), 5);
    assert_eq!(buffer.biome_at(3, 7, 3), 5);
    assert_eq!(buffer.biome_layers(), 8);
}
