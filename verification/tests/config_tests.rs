use noise::{NoiseFn, OpenSimplex};
use rust_world::creation::block_config::{BlockConfig, BlockFaceConfig, BlockTypeConfig};
use rust_world::creation::cube::CubeType;
use rust_world::creation::noise_gen::Noise;

fn face(x: i32, y: i32, w: i32, h: i32) -> BlockFaceConfig {
    BlockFaceConfig { x, y, w, h }
}

fn grass_config() -> BlockConfig {
    BlockConfig { top: face(0, 0, 16, 16), bottom: face(32, 0, 16, 16), side: face(16, 0, 16, 16) }
}

#[test]
fn texture_lookup_finds_configured_faces() {
    let mut cfg = BlockTypeConfig::new();
    assert!(cfg.add_block(String::from("grass"), grass_config()));
    assert_eq!(cfg.get_texture_coordinates("grass", "top"), (0, 0, 16, 16));
    assert_eq!(cfg.get_texture_coordinates("grass", "bottom"), (32, 0, 16, 16));
    assert_eq!(cfg.get_texture_coordinates("grass", "side"), (16, 0, 16, 16));
}

#[test]
fn unknown_face_falls_back_to_top() {
    let mut cfg = BlockTypeConfig::new();
    assert!(cfg.add_block(String::from("grass"), grass_config()));
    assert_eq!(cfg.get_texture_coordinates("grass", "roof"), (0, 0, 16, 16));
}

#[test]
fn unknown_block_falls_back_to_default_region() {
    let mut cfg = BlockTypeConfig::new();
    assert!(cfg.add_block(String::from("grass"), grass_config()));
    assert_eq!(cfg.get_texture_coordinates("lava", "top"), (1, 1, 160, 160));
}

#[test]
fn duplicate_block_names_are_refused() {
    let mut cfg = BlockTypeConfig::new();
    assert!(cfg.add_block(String::from("grass"), grass_config()));
    assert!(!cfg.add_block(String::from("grass"), grass_config()));
    assert_eq!(cfg.blocks.len(), 1);
}

#[test]
fn ordinals_follow_the_stable_encoding() {
    assert_eq!(CubeType::AIR.ordinal(), 0);
    assert_eq!(CubeType::GRASS.ordinal(), 1);
    assert_eq!(CubeType::DIRT.ordinal(), 2);
    assert_eq!(CubeType::STONE.ordinal(), 3);
}

#[test]
fn random_kind_varies() {
    let mut seen = [false; 4];
    let mut i: usize = 0;
    while i < 200 {
        let kind = CubeType::random();
        seen[CubeType::ordinal(&kind) as usize] = true;
        i += 1;
    }
    let mut distinct: usize = 0;
    let mut k: usize = 0;
    while k < 4 {
        if seen[k] {
            distinct += 1;
        }
        k += 1;
    }
    assert!(distinct >= 2);
}

#[test]
fn noise_is_reproducible_for_a_seed() {
    let a = Noise::new(424242);
    let b = Noise::new(424242);
    let p = [0.3_f64, -1.7, 5.2];
    assert_eq!(a.generator().get(p), b.generator().get(p));
}

#[test]
fn noise_depends_on_the_seed() {
    let a = Noise::new(1);
    let b = Noise::new(2);
    let mut differs = false;
    let mut i: i32 = 0;
    while i < 16 {
        let p = [0.37 * i as f64, 0.11 * i as f64, -0.29 * i as f64];
        if a.generator().get(p) != b.generator().get(p) {
            differs = true;
        }
        i += 1;
    }
    assert!(differs);
    // The same generators agree with a directly seeded one.
    let direct = OpenSimplex::new(1);
    assert_eq!(a.generator().get([0.5, 0.25, -0.75]), direct.get([0.5, 0.25, -0.75]));
}
