use vstd::prelude::*;

verus! {

/// Declares the outside `noise::OpenSimplex` generator type so that values
/// of it can be held and passed through verified code; what is inside stays
/// opaque here.
#[verifier::external_type_specification]
#[verifier::external_body]
pub struct ExOpenSimplex(noise::OpenSimplex);

/// A seeded density generator: the source of the reproducible pseudo-random
/// values that drive terrain generation.
///
/// Sampling the generator is floating-point work and happens outside this
/// crate; the generation code in this crate consumes only the sign of the
/// combined density per voxel slot. For a fixed seed and a fixed point the
/// sampled value is exactly reproducible, which is what lets neighboring
/// chunks independently recompute the same boundary values.
pub struct Noise {
    perlin: noise::OpenSimplex,
}

/// Relies on `noise::OpenSimplex::new`: builds the permutation-table-backed
/// generator for `world_seed`.
#[verifier::external_body]
fn open_simplex_from_seed(world_seed: u32) -> noise::OpenSimplex {
    noise::OpenSimplex::new(world_seed)
}

impl Noise {
    /// Makes a generator based on the seed.
    pub fn new(world_seed: u32) -> Noise {
        let perlin = open_simplex_from_seed(world_seed);
        Noise { perlin }
    }

    /// Borrows the underlying generator, for the floating-point sampling
    /// done outside this crate.
    pub fn generator(&self) -> &noise::OpenSimplex {
        &self.perlin
    }
}

} // verus!
