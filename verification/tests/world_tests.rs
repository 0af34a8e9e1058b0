use noise::{NoiseFn, OpenSimplex};
use rust_world::creation::chunk::Chunk;
use rust_world::creation::cube::{Cube, CubeType, Position};
use rust_world::creation::world::World;
use rust_world::game_specs::{CHUNK_SIZE, MAX_CHUNK_HEIGHT, NUM_CHUNKS};

const VOLUME: usize = (CHUNK_SIZE + 1) * (MAX_CHUNK_HEIGHT + 1) * (CHUNK_SIZE + 1);

fn combined_density(generator: &OpenSimplex, p: &Position) -> f64 {
    let base = generator.get([p.x as f64 / 50.0, p.y as f64 / 40.0, p.z as f64 / 50.0]);
    let detail = generator.get([p.x as f64 / 10.0, p.y as f64 / 10.0, p.z as f64 / 10.0]);
    0.5 * base + 0.5 * detail
}

fn density_signs(seed: u32, pts: &Vec<Position>) -> Vec<bool> {
    let generator = OpenSimplex::new(seed);
    let mut signs: Vec<bool> = Vec::new();
    for p in pts {
        signs.push(combined_density(&generator, p) > 0.0);
    }
    signs
}

fn build_world(seed: u32) -> World {
    let mut table: Vec<Vec<bool>> = Vec::new();
    let mut x: i64 = 0;
    while x < NUM_CHUNKS as i64 {
        let mut z: i64 = 0;
        while z < NUM_CHUNKS as i64 {
            let position = Position { x, y: -1, z };
            let neighbor_position = if z > 0 {
                Some(Position { x, y: -1, z: z - 1 })
            } else if x > 0 {
                Some(Position { x: x - 1, y: -1, z: NUM_CHUNKS as i64 - 1 })
            } else {
                None
            };
            let pts = Chunk::sample_positions(position, neighbor_position);
            table.push(density_signs(seed, &pts));
            z += 1;
        }
        x += 1;
    }
    World::new(seed, &table)
}

fn count_chunks_at(world: &World, position: Position) -> usize {
    let mut count: usize = 0;
    let mut i: usize = 0;
    while i < world.chunks.len() {
        if world.chunks[i].position == position {
            count += 1;
        }
        i += 1;
    }
    count
}

#[test]
fn new_world_generates_the_initial_grid() {
    let world = build_world(2024);
    assert_eq!(world.world_seed, 2024);
    assert_eq!(world.chunks.len(), NUM_CHUNKS * NUM_CHUNKS);
    assert_eq!(world.chunks[0].position, Position { x: 0, y: -1, z: 0 });
    assert!(world.get_chunk_at(Position { x: 5, y: -1, z: 5 }).is_some());
    assert!(world.get_chunk_at(Position { x: 6, y: -1, z: 0 }).is_none());
    assert!(world.chunk_exists(Position { x: 3, y: -1, z: 4 }));
    assert!(!world.chunk_exists(Position { x: 0, y: 0, z: 0 }));
    let mut i: usize = 0;
    while i < world.chunks.len() {
        assert_eq!(world.chunks[i].cubes.len(), VOLUME);
        assert_eq!(count_chunks_at(&world, world.chunks[i].position), 1);
        i += 1;
    }
}

#[test]
fn new_world_is_reproducible_for_a_seed() {
    let a = build_world(31337);
    let b = build_world(31337);
    assert_eq!(a.chunks.len(), b.chunks.len());
    let mut i: usize = 0;
    while i < a.chunks.len() {
        assert_eq!(a.chunks[i].position, b.chunks[i].position);
        assert_eq!(a.chunks[i].cubes, b.chunks[i].cubes);
        i += 1;
    }
}

#[test]
fn generate_chunk_twice_keeps_one_chunk() {
    let mut world = build_world(777);
    let position = Position { x: 40, y: -1, z: 40 };
    let pts = world.sample_positions_for(position);
    let samples = density_signs(world.world_seed, &pts);
    world.generate_chunk(position, &samples);
    assert_eq!(world.chunks.len(), NUM_CHUNKS * NUM_CHUNKS + 1);
    assert_eq!(count_chunks_at(&world, position), 1);
    // A second call with the same coordinate changes nothing.
    world.generate_chunk(position, &samples);
    assert_eq!(world.chunks.len(), NUM_CHUNKS * NUM_CHUNKS + 1);
    assert_eq!(count_chunks_at(&world, position), 1);
}

#[test]
fn generate_chunk_skips_an_occupied_coordinate() {
    let mut world = build_world(777);
    let position = Position { x: 0, y: -1, z: 0 };
    let before = world.chunks.len();
    let samples = vec![true; VOLUME];
    world.generate_chunk(position, &samples);
    assert_eq!(world.chunks.len(), before);
}

#[test]
fn world_visible_cubes_concatenates_chunks() {
    let mut cubes: Vec<Cube> = Vec::new();
    cubes.push(Cube::new(Position { x: 0, y: 0, z: 0 }, CubeType::STONE));
    cubes.push(Cube::new(Position { x: 1, y: 0, z: 0 }, CubeType::GRASS));
    let chunk = Chunk::new(Position { x: 0, y: 0, z: 0 }, cubes);
    let expected = chunk.visible_cubes();
    let world = World { chunks: vec![chunk], world_seed: 5 };
    let visible = world.visible_cubes();
    assert_eq!(visible, expected);
    assert_eq!(visible.len(), 2);
}
