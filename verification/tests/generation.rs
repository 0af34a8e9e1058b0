use noise::{NoiseFn, OpenSimplex};
use rust_world::creation::chunk::{coordinate_in_bounds, Chunk};
use rust_world::creation::cube::{determine_cube_type, Cube, CubeType, Position};
use rust_world::game_specs::{CHUNK_SIZE, MAX_CHUNK_HEIGHT};

const VOLUME: usize = (CHUNK_SIZE + 1) * (MAX_CHUNK_HEIGHT + 1) * (CHUNK_SIZE + 1);

fn combined_density(generator: &OpenSimplex, p: &Position) -> f64 {
    let base = generator.get([p.x as f64 / 50.0, p.y as f64 / 40.0, p.z as f64 / 50.0]);
    let detail = generator.get([p.x as f64 / 10.0, p.y as f64 / 10.0, p.z as f64 / 10.0]);
    0.5 * base + 0.5 * detail
}

fn density_signs(seed: u32, pts: &Vec<Position>) -> Vec<bool> {
    let generator = OpenSimplex::new(seed);
    let mut signs: Vec<bool> = Vec::new();
    for p in pts {
        signs.push(combined_density(&generator, p) > 0.0);
    }
    signs
}

fn generate_from_noise(seed: u32, position: Position, neighbor: Option<&Chunk>) -> Chunk {
    let neighbor_position = match neighbor {
        Some(c) => Some(c.position),
        None => None,
    };
    let pts = Chunk::sample_positions(position, neighbor_position);
    let samples = density_signs(seed, &pts);
    Chunk::generate(position, neighbor, &samples)
}

#[test]
fn generate_is_deterministic() {
    let position = Position { x: 2, y: -1, z: 3 };
    let a = generate_from_noise(12345, position, None);
    let b = generate_from_noise(12345, position, None);
    assert_eq!(a.position, b.position);
    assert_eq!(a.cubes.len(), b.cubes.len());
    let mut i: usize = 0;
    while i < a.cubes.len() {
        assert_eq!(a.cubes[i].position, b.cubes[i].position);
        assert_eq!(a.cubes[i]._type, b.cubes[i]._type);
        i += 1;
    }
}

#[test]
fn generate_yields_fixed_voxel_count() {
    let chunk = generate_from_noise(7, Position { x: 0, y: -1, z: 0 }, None);
    assert_eq!(chunk.cubes.len(), VOLUME);
    assert_eq!(chunk.cubes.len(), (CHUNK_SIZE + 1) * (CHUNK_SIZE + 1) * (MAX_CHUNK_HEIGHT + 1));
}

#[test]
fn bedrock_layer_is_stone() {
    let chunk = generate_from_noise(99, Position { x: -3, y: -1, z: 5 }, None);
    let mut i: usize = 0;
    while i < chunk.cubes.len() {
        let local_y = (i / (CHUNK_SIZE + 1)) % (MAX_CHUNK_HEIGHT + 1);
        if local_y == 0 {
            assert_eq!(chunk.cubes[i]._type, CubeType::STONE);
        }
        i += 1;
    }
}

#[test]
fn banding_is_boundary_exact() {
    // Away from the bedrock layer, a positive density bands by world height.
    assert_eq!(determine_cube_type(true, Position { x: 0, y: -6, z: 0 }, 1), CubeType::STONE);
    assert_eq!(determine_cube_type(true, Position { x: 0, y: -5, z: 0 }, 1), CubeType::DIRT);
    assert_eq!(determine_cube_type(true, Position { x: 0, y: -1, z: 0 }, 1), CubeType::DIRT);
    assert_eq!(determine_cube_type(true, Position { x: 0, y: 0, z: 0 }, 1), CubeType::GRASS);
    assert_eq!(determine_cube_type(true, Position { x: 0, y: 8, z: 0 }, 1), CubeType::GRASS);
    // A non-positive density is air.
    assert_eq!(determine_cube_type(false, Position { x: 0, y: 3, z: 0 }, 2), CubeType::AIR);
    // The lowest generated layer is stone no matter what.
    assert_eq!(determine_cube_type(false, Position { x: 0, y: -9, z: 0 }, 0), CubeType::STONE);
}

fn plus_shape_cubes(center_kind: CubeType) -> Vec<Cube> {
    let mut cubes: Vec<Cube> = Vec::new();
    cubes.push(Cube::new(Position { x: 0, y: 0, z: 0 }, center_kind));
    cubes.push(Cube::new(Position { x: 1, y: 0, z: 0 }, CubeType::STONE));
    cubes.push(Cube::new(Position { x: -1, y: 0, z: 0 }, CubeType::STONE));
    cubes.push(Cube::new(Position { x: 0, y: 1, z: 0 }, CubeType::STONE));
    cubes.push(Cube::new(Position { x: 0, y: -1, z: 0 }, CubeType::STONE));
    cubes.push(Cube::new(Position { x: 0, y: 0, z: 1 }, CubeType::STONE));
    cubes.push(Cube::new(Position { x: 0, y: 0, z: -1 }, CubeType::STONE));
    cubes
}

#[test]
fn fully_surrounded_voxel_is_blocked() {
    let cubes = plus_shape_cubes(CubeType::STONE);
    let center = cubes[0];
    let chunk = Chunk::new(Position { x: 0, y: 0, z: 0 }, cubes);
    assert!(center.is_blocked(&chunk));
}

#[test]
fn missing_neighbor_unblocks() {
    let mut cubes = plus_shape_cubes(CubeType::STONE);
    let center = cubes[0];
    // Remove the (1, 0, 0) neighbor.
    cubes.remove(1);
    let chunk = Chunk::new(Position { x: 0, y: 0, z: 0 }, cubes);
    assert!(!center.is_blocked(&chunk));
}

#[test]
fn air_neighbor_unblocks() {
    let mut cubes = plus_shape_cubes(CubeType::STONE);
    let center = cubes[0];
    cubes[3] = Cube::new(Position { x: 0, y: 1, z: 0 }, CubeType::AIR);
    let chunk = Chunk::new(Position { x: 0, y: 0, z: 0 }, cubes);
    assert!(!center.is_blocked(&chunk));
}

#[test]
fn visible_cubes_excludes_blocked() {
    let cubes = plus_shape_cubes(CubeType::STONE);
    let chunk = Chunk::new(Position { x: 0, y: 0, z: 0 }, cubes);
    assert!(chunk.positions_in_bounds());
    let visible = chunk.visible_cubes();
    assert_eq!(visible.len(), 6);
    let mut i: usize = 0;
    while i < visible.len() {
        assert_ne!(visible[i].position, Position { x: 0, y: 0, z: 0 });
        i += 1;
    }
}

#[test]
fn boundary_stitch_aligns_with_neighbor() {
    // A chunk at (1, -1, 0) generated against a neighbor at (0, -1, 0)
    // places its local-x = 0 overlap layer at world x = 1*16 + 0 - 16 = 0.
    let neighbor = Chunk::new(Position { x: 0, y: -1, z: 0 }, Vec::new());
    let samples = vec![false; VOLUME];
    let chunk = Chunk::generate(Position { x: 1, y: -1, z: 0 }, Some(&neighbor), &samples);
    let layer = (MAX_CHUNK_HEIGHT + 1) * (CHUNK_SIZE + 1);
    let mut i: usize = 0;
    while i < layer {
        assert_eq!(chunk.cubes[i].position.x, 0);
        i += 1;
    }
    // The first non-overlap layer sits at world x = 1*16 + 1 = 17.
    assert_eq!(chunk.cubes[layer].position.x, 17);
}

#[test]
fn no_stitch_without_neighbor() {
    let samples = vec![false; VOLUME];
    let chunk = Chunk::generate(Position { x: 1, y: -1, z: 0 }, None, &samples);
    assert_eq!(chunk.cubes[0].position, Position { x: 16, y: -10, z: 0 });
}

#[test]
fn sample_positions_cover_the_footprint() {
    let pts = Chunk::sample_positions(Position { x: 1, y: -1, z: 0 }, None);
    assert_eq!(pts.len(), VOLUME);
    assert_eq!(pts[0], Position { x: 16, y: -10, z: 0 });
    assert_eq!(pts[VOLUME - 1], Position { x: 32, y: 0, z: 16 });
}

#[test]
fn lookup_hit_and_miss() {
    let chunk = generate_from_noise(4242, Position { x: 0, y: -1, z: 0 }, None);
    let probe = chunk.cubes[10];
    assert!(chunk.has_cube(probe.position));
    assert_eq!(chunk.at(probe.position), Some(probe._type));
    let far = Position { x: 1000, y: 1000, z: 1000 };
    assert!(!chunk.has_cube(far));
    assert_eq!(chunk.at(far), None);
}

#[test]
fn set_replaces_kind_in_place() {
    let mut chunk = generate_from_noise(4242, Position { x: 0, y: -1, z: 0 }, None);
    let target = chunk.cubes[42].position;
    let new_kind = if chunk.cubes[42]._type == CubeType::GRASS {
        CubeType::STONE
    } else {
        CubeType::GRASS
    };
    chunk.set(target, new_kind);
    assert_eq!(chunk.at(target), Some(new_kind));
    assert_eq!(chunk.cubes.len(), VOLUME);
}

#[test]
fn set_on_missing_position_is_a_no_op() {
    let chunk = generate_from_noise(4242, Position { x: 0, y: -1, z: 0 }, None);
    let mut copy = chunk.clone();
    copy.set(Position { x: 1000, y: 1000, z: 1000 }, CubeType::GRASS);
    assert_eq!(copy.cubes, chunk.cubes);
}

#[test]
fn coordinate_bounds_checker_accepts_and_rejects() {
    assert!(coordinate_in_bounds(Position { x: 5, y: -1, z: 5 }));
    assert!(coordinate_in_bounds(Position { x: -1000000, y: 0, z: 1000000 }));
    assert!(!coordinate_in_bounds(Position { x: i64::MAX, y: 0, z: 0 }));
    assert!(!coordinate_in_bounds(Position { x: 0, y: i64::MIN, z: 0 }));
}

#[test]
fn all_solid_chunk_shows_only_the_shell() {
    // With every density sample positive, every voxel is solid, so exactly
    // the interior voxels (those with all six neighbors inside the chunk)
    // are occluded.
    let samples = vec![true; VOLUME];
    let chunk = Chunk::generate(Position { x: 0, y: -1, z: 0 }, None, &samples);
    assert!(chunk.positions_in_bounds());
    let visible = chunk.visible_cubes();
    let interior = (CHUNK_SIZE - 1) * (MAX_CHUNK_HEIGHT - 1) * (CHUNK_SIZE - 1);
    assert_eq!(visible.len(), VOLUME - interior);
}
