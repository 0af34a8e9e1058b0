use crate::creation::chunk::{
    cube_type_at, lemma_cube_type_at_present, lemma_cube_type_at_unique, spec_has_cube,
    unique_positions, Chunk,
};
use vstd::prelude::*;

verus! {

/// The material of a voxel. Each kind is also assigned a stable ordinal
/// (`Air = 0`, `Grass = 1`, `Dirt = 2`, `Stone = 3`) for the rendering
/// boundary, exposed through [`CubeType::ordinal`].
#[allow(non_camel_case_types)]
#[derive(Copy, Clone, PartialEq, Eq, Structural, Debug)]
pub enum CubeType {
    AIR,
    GRASS,
    DIRT,
    STONE,
}

/// An integer point in voxel space (also used for chunk-space coordinates).
///
/// Generated voxel positions are always whole numbers: a chunk coordinate
/// scaled by the chunk footprint plus a local index, with an optional
/// footprint-sized boundary shift, so `i64` components represent them
/// exactly.
#[derive(Copy, Clone, PartialEq, Eq, Structural, Debug)]
pub struct Position {
    pub x: i64,
    pub y: i64,
    pub z: i64,
}

/// A single voxel: a position in voxel space and a block kind.
#[derive(Copy, Clone, PartialEq, Eq, Structural, Debug)]
pub struct Cube {
    pub _type: CubeType,
    pub position: Position,
}

impl CubeType {
    /// The stable numeric encoding of this kind, part of the contract with
    /// the rendering boundary (which maps ordinals to texture regions).
    pub open spec fn spec_ordinal(self) -> u8 {
        match self {
            CubeType::AIR => 0,
            CubeType::GRASS => 1,
            CubeType::DIRT => 2,
            CubeType::STONE => 3,
        }
    }

    /// Returns the stable ordinal of this block kind.
    pub fn ordinal(&self) -> (r: u8)
        ensures
            r == self.spec_ordinal(),
    {
        match self {
            CubeType::AIR => 0,
            CubeType::GRASS => 1,
            CubeType::DIRT => 2,
            CubeType::STONE => 3,
        }
    }

    /// Draws one of the four kinds at random.
    pub fn random() -> CubeType {
        let random_number = rand_below(4);
        match random_number {
            0 => CubeType::AIR,
            1 => CubeType::GRASS,
            2 => CubeType::DIRT,
            3 => CubeType::STONE,
            _ => {
                proof {
                    assert(false);
                }
                CubeType::STONE
            },
        }
    }
}

/// Relies on `rand::random_range` over `0..n`: the result is drawn from the
/// thread-local generator and lies strictly below `n`; the call panics only
/// on an empty range, which the precondition excludes.
#[verifier::external_body]
fn rand_below(n: u32) -> (r: u32)
    requires
        n > 0,
    ensures
        r < n,
{
    rand::random_range(0..n)
}

impl Cube {
    /// Builds a voxel from a position and a kind.
    pub fn new(position: Position, _type: CubeType) -> (c: Cube)
        ensures
            c.position == position,
            c._type == _type,
    {
        Cube { position, _type }
    }

    /// Replaces the kind of this voxel.
    pub fn set_type(&mut self, type_: CubeType)
        ensures
            final(self).position == old(self).position,
            final(self)._type == type_,
    {
        self._type = type_;
    }
}

/// Classification of one voxel from the sign of its combined density sample
/// and its vertical placement, in precedence order: the lowest generated
/// layer (`y == 0`) is always stone; a non-positive density is air; otherwise
/// the kind is banded by world-space height.
pub open spec fn spec_determine_cube_type(
    noise_positive: bool,
    world_y: int,
    local_y: int,
) -> CubeType {
    if local_y == 0 {
        CubeType::STONE
    } else if !noise_positive {
        CubeType::AIR
    } else if world_y < -5 {
        CubeType::STONE
    } else if world_y < 0 {
        CubeType::DIRT
    } else {
        CubeType::GRASS
    }
}

/// Turns one density sample plus spatial context into a block kind.
///
/// `noise_positive` states whether the combined (base + detail) density at
/// the voxel's position is strictly positive; `y` is the voxel's local
/// vertical index within its chunk.
pub fn determine_cube_type(noise_positive: bool, position: Position, y: usize) -> (r: CubeType)
    ensures
        r == spec_determine_cube_type(noise_positive, position.y as int, y as int),
{
    // Guarantee a "bedrock" layer of stone under every column.
    if y == 0 {
        return CubeType::STONE;
    }
    if noise_positive {
        if position.y < -5 {
            CubeType::STONE
        } else if position.y < 0 {
            CubeType::DIRT
        } else {
            CubeType::GRASS
        }
    } else {
        CubeType::AIR
    }
}

/// Banding is boundary-exact and monotone in world height: away from the
/// bedrock layer, a positive density classifies as stone strictly below
/// height -5, as dirt from -5 up to (excluding) 0, and as grass at 0 and
/// above.
pub proof fn lemma_banding_monotonicity(world_y: int, local_y: int)
    requires
        local_y != 0,
    ensures
        world_y < -5 ==> spec_determine_cube_type(true, world_y, local_y) == CubeType::STONE,
        -5 <= world_y < 0 ==> spec_determine_cube_type(true, world_y, local_y) == CubeType::DIRT,
        world_y >= 0 ==> spec_determine_cube_type(true, world_y, local_y) == CubeType::GRASS,
        spec_determine_cube_type(false, world_y, local_y) == CubeType::AIR,
{
}


/// Whether every direct axis neighbor of `p` is representable in `i64`
/// coordinates (forced by the machine word, not by the occlusion rules).
pub open spec fn has_representable_neighbors(p: Position) -> bool {
    &&& i64::MIN < p.x < i64::MAX
    &&& i64::MIN < p.y < i64::MAX
    &&& i64::MIN < p.z < i64::MAX
}

/// The `k`-th direct axis neighbor of `p`, at unit offset, in the fixed
/// order right, left, top, bottom, front, back.
pub open spec fn spec_neighbor(p: Position, k: int) -> Position {
    if k == 0 {
        Position { x: (p.x + 1) as i64, y: p.y, z: p.z }
    } else if k == 1 {
        Position { x: (p.x - 1) as i64, y: p.y, z: p.z }
    } else if k == 2 {
        Position { x: p.x, y: (p.y + 1) as i64, z: p.z }
    } else if k == 3 {
        Position { x: p.x, y: (p.y - 1) as i64, z: p.z }
    } else if k == 4 {
        Position { x: p.x, y: p.y, z: (p.z + 1) as i64 }
    } else {
        Position { x: p.x, y: p.y, z: (p.z - 1) as i64 }
    }
}

/// Whether `cubes` holds a non-air voxel at exactly `p`; a missing voxel
/// counts as not solid.
pub open spec fn spec_solid_at(cubes: Seq<Cube>, p: Position) -> bool {
    match cube_type_at(cubes, p) {
        Some(t) => t != CubeType::AIR,
        None => false,
    }
}

/// Whether `cube` is fully occluded within `chunk`: all six direct axis
/// neighbors are present in the chunk and none of them is air.
pub open spec fn spec_blocked(cube: Cube, chunk: Chunk) -> bool {
    forall|k: int|
        0 <= k < 6 ==> spec_solid_at(chunk.cubes@, #[trigger] spec_neighbor(cube.position, k))
}

impl Cube {
    /// The six direct axis neighbors of this voxel's position.
    fn direct_neighbors(&self) -> (ns: [Position; 6])
        requires
            has_representable_neighbors(self.position),
        ensures
            forall|k: int| 0 <= k < 6 ==> ns@[k] == spec_neighbor(self.position, k),
    {
        let i = self.position.x;
        let j = self.position.y;
        let k = self.position.z;
        let ns: [Position; 6] = [
            Position { x: i + 1, y: j, z: k },  // Right
            Position { x: i - 1, y: j, z: k },  // Left
            Position { x: i, y: j + 1, z: k },  // Top
            Position { x: i, y: j - 1, z: k },  // Bottom
            Position { x: i, y: j, z: k + 1 },  // Front
            Position { x: i, y: j, z: k - 1 },  // Back
        ];
        ns
    }

    /// Tests whether this voxel is fully occluded within `chunk`: it only
    /// returns true when all six direct neighbors exist in the chunk and
    /// none of them is air. A neighbor position that the chunk does not
    /// cover counts as empty space.
    pub fn is_blocked(&self, chunk: &Chunk) -> (r: bool)
        requires
            has_representable_neighbors(self.position),
        ensures
            r == spec_blocked(*self, *chunk),
    {
        let neighbors = self.direct_neighbors();
        let mut num_neighbors: usize = 0;
        let mut k: usize = 0;
        while k < 6
            invariant
                0 <= k <= 6,
                num_neighbors <= k,
                forall|j: int| 0 <= j < 6 ==> neighbors@[j] == spec_neighbor(self.position, j),
                num_neighbors == k <==> (forall|j: int|
                    0 <= j < k ==> spec_solid_at(chunk.cubes@, #[trigger] spec_neighbor(
                        self.position,
                        j,
                    ))),
            decreases 6 - k,
        {
            let solid = match chunk.at(neighbors[k]) {
                Some(t) => t != CubeType::AIR,
                None => false,
            };
            if solid {
                num_neighbors = num_neighbors + 1;
            }
            k = k + 1;
        }
        // Only fully surrounded voxels are occluded.
        num_neighbors == 6
    }
}

/// With unique voxel positions, solidity at `p` is the existence of a
/// non-air voxel at `p`.
pub proof fn lemma_solid_at_unique(cubes: Seq<Cube>, p: Position)
    requires
        unique_positions(cubes),
    ensures
        spec_solid_at(cubes, p) <==> exists|i: int|
            0 <= i < cubes.len() && (#[trigger] cubes[i]).position == p && cubes[i]._type
                != CubeType::AIR,
{
    lemma_cube_type_at_present(cubes, p);
    if spec_has_cube(cubes, p) {
        let i = choose|i: int| 0 <= i < cubes.len() && (#[trigger] cubes[i]).position == p;
        lemma_cube_type_at_unique(cubes, p, i);
    }
}

/// Whether some voxel of `cubes` sits exactly at the `k`-th axis neighbor
/// of `p` and is not air.
pub open spec fn spec_neighbor_filled(cubes: Seq<Cube>, p: Position, k: int) -> bool {
    exists|i: int|
        0 <= i < cubes.len() && (#[trigger] cubes[i]).position == spec_neighbor(p, k)
            && cubes[i]._type != CubeType::AIR
}

/// Occlusion correctness: with unique voxel positions, a voxel is blocked
/// exactly when, for each of the six axis offsets, a voxel exists at that
/// offset and is not air. Removing any one neighbor, or turning it to air,
/// unblocks the voxel.
pub proof fn lemma_occlusion_correctness(cube: Cube, chunk: Chunk)
    requires
        unique_positions(chunk.cubes@),
    ensures
        spec_blocked(cube, chunk) <==> (forall|k: int|
            0 <= k < 6 ==> #[trigger] spec_neighbor_filled(chunk.cubes@, cube.position, k)),
{
    assert forall|k: int| 0 <= k < 6 implies (spec_solid_at(
        chunk.cubes@,
        #[trigger] spec_neighbor(cube.position, k),
    ) <==> spec_neighbor_filled(chunk.cubes@, cube.position, k)) by {
        lemma_solid_at_unique(chunk.cubes@, spec_neighbor(cube.position, k));
    }
    if spec_blocked(cube, chunk) {
        assert forall|k: int| 0 <= k < 6 implies #[trigger] spec_neighbor_filled(
            chunk.cubes@,
            cube.position,
            k,
        ) by {
            assert(spec_solid_at(chunk.cubes@, spec_neighbor(cube.position, k)));
        }
    }
    if forall|k: int| 0 <= k < 6 ==> #[trigger] spec_neighbor_filled(
        chunk.cubes@,
        cube.position,
        k,
    ) {
        assert forall|k: int| 0 <= k < 6 implies spec_solid_at(
            chunk.cubes@,
            #[trigger] spec_neighbor(cube.position, k),
        ) by {
            assert(spec_neighbor_filled(chunk.cubes@, cube.position, k));
        }
    }
}

} // verus!
