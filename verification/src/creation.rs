pub mod block_config;
pub mod chunk;
pub mod cube;
pub mod noise_gen;
pub mod world;
