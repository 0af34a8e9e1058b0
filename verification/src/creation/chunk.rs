use crate::creation::cube::{
    determine_cube_type, has_representable_neighbors, spec_blocked, spec_determine_cube_type, Cube,
    CubeType, Position,
};
use crate::game_specs::{CHUNK_SIZE, MAX_CHUNK_HEIGHT};
use vstd::arithmetic::div_mod::{lemma_fundamental_div_mod, lemma_mod_bound};
use vstd::prelude::*;

verus! {

/// A fixed-footprint block of voxels generated from a chunk-space
/// coordinate. A chunk spans one extra voxel layer beyond its nominal
/// footprint on every axis, so that adjacent chunks overlap for seamless
/// boundary stitching.
#[derive(Clone)]
pub struct Chunk {
    pub position: Position,
    pub cubes: Vec<Cube>,
}

/// Number of voxel slots along each horizontal axis (footprint plus the
/// stitching overlap layer).
pub open spec fn side_len() -> int {
    CHUNK_SIZE as int + 1
}

/// Number of voxel slots along the vertical axis.
pub open spec fn height_len() -> int {
    MAX_CHUNK_HEIGHT as int + 1
}

/// Total number of voxels a generated chunk holds.
pub open spec fn chunk_len() -> int {
    side_len() * height_len() * side_len()
}

/// Whether `(x, y, z)` is a valid local voxel index within a chunk.
pub open spec fn in_local_range(x: int, y: int, z: int) -> bool {
    &&& 0 <= x < side_len()
    &&& 0 <= y < height_len()
    &&& 0 <= z < side_len()
}

/// The position of local index `(x, y, z)` in a chunk's voxel sequence,
/// following generation order: `x` outer, `y` middle, `z` inner.
pub open spec fn flat_index(x: int, y: int, z: int) -> int {
    (x * height_len() + y) * side_len() + z
}

/// `flat_index` written out linearly over the fixed chunk dimensions.
pub broadcast proof fn lemma_flat_index_linear(x: int, y: int, z: int)
    ensures
        #[trigger] flat_index(x, y, z) == 187 * x + 17 * y + z,
{
    assert(flat_index(x, y, z) == 187 * x + 17 * y + z) by (nonlinear_arith)
        requires
            flat_index(x, y, z) == (x * height_len() + y) * side_len() + z,
            side_len() == 17,
            height_len() == 11,
    ;
}

/// The voxel count of a chunk, as a number.
pub proof fn lemma_chunk_len_value()
    ensures
        chunk_len() == 3179,
{
    assert(chunk_len() == 3179) by (nonlinear_arith)
        requires
            chunk_len() == side_len() * height_len() * side_len(),
            side_len() == 17,
            height_len() == 11,
    ;
}

/// Every valid local index names a slot below `chunk_len()`.
pub proof fn lemma_flat_index_in_range(x: int, y: int, z: int)
    requires
        in_local_range(x, y, z),
    ensures
        0 <= flat_index(x, y, z) < chunk_len(),
{
    broadcast use lemma_flat_index_linear;

    lemma_chunk_len_value();
}

/// Distinct local indices occupy distinct slots of the voxel sequence.
pub proof fn lemma_flat_index_injective(a: int, b: int, c: int, x: int, y: int, z: int)
    requires
        in_local_range(a, b, c),
        in_local_range(x, y, z),
        flat_index(a, b, c) == flat_index(x, y, z),
    ensures
        a == x && b == y && c == z,
{
    broadcast use lemma_flat_index_linear;

}

/// Every slot below `chunk_len()` is the slot of exactly one local index.
pub proof fn lemma_flat_index_decode(i: int)
    requires
        0 <= i < chunk_len(),
    ensures
        exists|x: int, y: int, z: int|
            in_local_range(x, y, z) && #[trigger] flat_index(x, y, z) == i,
{
    lemma_chunk_len_value();
    let x = i / 187;
    let y = (i % 187) / 17;
    let z = (i % 187) % 17;
    lemma_fundamental_div_mod(i, 187);
    lemma_mod_bound(i, 187);
    lemma_fundamental_div_mod(i % 187, 17);
    lemma_mod_bound(i % 187, 17);
    broadcast use lemma_flat_index_linear;

    assert(in_local_range(x, y, z) && flat_index(x, y, z) == i);
}

/// Whether a chunk-space coordinate is small enough that every generated
/// voxel position (including the boundary-shifted overlap layer) fits in
/// `i64`. This is the only restriction on chunk coordinates; it is forced by
/// the machine word, not by the generation rules.
pub open spec fn chunk_pos_in_bounds(p: Position) -> bool {
    &&& i64::MIN <= p.x * (CHUNK_SIZE as int) - (CHUNK_SIZE as int)
    &&& p.x * (CHUNK_SIZE as int) + (CHUNK_SIZE as int) <= i64::MAX
    &&& i64::MIN <= p.y * (MAX_CHUNK_HEIGHT as int)
    &&& p.y * (MAX_CHUNK_HEIGHT as int) + (MAX_CHUNK_HEIGHT as int) <= i64::MAX
    &&& i64::MIN <= p.z * (CHUNK_SIZE as int) - (CHUNK_SIZE as int)
    &&& p.z * (CHUNK_SIZE as int) + (CHUNK_SIZE as int) <= i64::MAX
}

/// Checks at run time that a chunk coordinate satisfies
/// [`chunk_pos_in_bounds`], so that a caller can reject a coordinate before
/// generating at it.
pub fn coordinate_in_bounds(position: Position) -> (r: bool)
    ensures
        r == chunk_pos_in_bounds(position),
{
    let px = match position.x.checked_mul(CHUNK_SIZE as i64) {
        Some(v) => v,
        None => {
            return false;
        },
    };
    if !(px >= i64::MIN + (CHUNK_SIZE as i64) && px <= i64::MAX - (CHUNK_SIZE as i64)) {
        return false;
    }
    let py = match position.y.checked_mul(MAX_CHUNK_HEIGHT as i64) {
        Some(v) => v,
        None => {
            return false;
        },
    };
    if !(py <= i64::MAX - (MAX_CHUNK_HEIGHT as i64)) {
        return false;
    }
    let pz = match position.z.checked_mul(CHUNK_SIZE as i64) {
        Some(v) => v,
        None => {
            return false;
        },
    };
    if !(pz >= i64::MIN + (CHUNK_SIZE as i64) && pz <= i64::MAX - (CHUNK_SIZE as i64)) {
        return false;
    }
    true
}

/// The neighbor coordinate a generation call works with, if any.
pub open spec fn spec_neighbor_position(neighbor_chunk: Option<&Chunk>) -> Option<Position> {
    match neighbor_chunk {
        Some(c) => Some(c.position),
        None => None,
    }
}

/// The world-space point of local index `(x, y, z)` before any boundary
/// adjustment: the chunk coordinate scaled per axis by the chunk footprint,
/// plus the local index.
pub open spec fn spec_raw_position(chunk_pos: Position, x: int, y: int, z: int) -> (int, int, int) {
    (
        chunk_pos.x * (CHUNK_SIZE as int) + x,
        chunk_pos.y * (MAX_CHUNK_HEIGHT as int) + y,
        chunk_pos.z * (CHUNK_SIZE as int) + z,
    )
}

/// The world-space point of local index `(x, y, z)` after boundary
/// adjustment against the neighbor hint: the `x == 0` overlap layer is
/// shifted down by one footprint when the neighbor lies below on the x axis,
/// else the `z == 0` layer symmetrically. The two branches are exclusive, in
/// that order; only one neighbor hint is consulted.
pub open spec fn spec_adjusted_position(
    chunk_pos: Position,
    neighbor: Option<Position>,
    x: int,
    y: int,
    z: int,
) -> (int, int, int) {
    let raw = spec_raw_position(chunk_pos, x, y, z);
    match neighbor {
        Some(n) => if x == 0 && n.x < chunk_pos.x {
            (raw.0 - CHUNK_SIZE as int, raw.1, raw.2)
        } else if z == 0 && n.z < chunk_pos.z {
            (raw.0, raw.1, raw.2 - CHUNK_SIZE as int)
        } else {
            raw
        },
        None => raw,
    }
}

/// The voxel position of local index `(x, y, z)`, as stored in a generated
/// chunk.
pub open spec fn spec_cube_position(
    chunk_pos: Position,
    neighbor: Option<Position>,
    x: int,
    y: int,
    z: int,
) -> Position {
    let p = spec_adjusted_position(chunk_pos, neighbor, x, y, z);
    Position { x: p.0 as i64, y: p.1 as i64, z: p.2 as i64 }
}

/// The voxel generated for local index `(x, y, z)` from the density sample
/// of its slot: placed at the adjusted position, classified from the sample
/// sign, the adjusted world height and the local vertical index.
pub open spec fn spec_generated_cube(
    chunk_pos: Position,
    neighbor: Option<Position>,
    samples: Seq<bool>,
    x: int,
    y: int,
    z: int,
) -> Cube {
    let p = spec_adjusted_position(chunk_pos, neighbor, x, y, z);
    Cube {
        position: spec_cube_position(chunk_pos, neighbor, x, y, z),
        _type: spec_determine_cube_type(samples[flat_index(x, y, z)], p.1, y),
    }
}

/// Whether `cubes` is exactly the voxel sequence generated for `chunk_pos`
/// against `neighbor` from the density sample sequence `samples` (indexed by
/// voxel slot, `true` meaning a strictly positive combined density).
pub open spec fn is_generated(
    cubes: Seq<Cube>,
    chunk_pos: Position,
    neighbor: Option<Position>,
    samples: Seq<bool>,
) -> bool {
    &&& cubes.len() == chunk_len()
    &&& forall|x: int, y: int, z: int|
        in_local_range(x, y, z) ==> cubes[#[trigger] flat_index(x, y, z)]
            == spec_generated_cube(chunk_pos, neighbor, samples, x, y, z)
}

impl Chunk {
    /// Builds a chunk directly from a coordinate and a voxel sequence.
    pub fn new(position: Position, cubes: Vec<Cube>) -> (c: Chunk)
        ensures
            c.position == position,
            c.cubes == cubes,
    {
        Chunk { position, cubes }
    }

    /// The world-space points at which the density field must be sampled to
    /// generate a chunk at `position` against `neighbor_position`, one per
    /// voxel slot in generation order.
    ///
    /// This is the seam to the floating-point density sampler: a caller
    /// samples the field at each returned point and hands the sign bits to
    /// [`Chunk::generate`] in the same order.
    #[verifier::loop_isolation(false)]
    pub fn sample_positions(position: Position, neighbor_position: Option<Position>) -> (pts: Vec<
        Position,
    >)
        requires
            chunk_pos_in_bounds(position),
        ensures
            pts@.len() == chunk_len(),
            forall|x: int, y: int, z: int|
                in_local_range(x, y, z) ==> pts@[#[trigger] flat_index(x, y, z)]
                    == spec_cube_position(position, neighbor_position, x, y, z),
    {
        broadcast use lemma_flat_index_linear;

        let mut pts: Vec<Position> = Vec::new();
        let mut x: usize = 0;
        while x < CHUNK_SIZE + 1
            invariant
                chunk_pos_in_bounds(position),
                0 <= x <= CHUNK_SIZE + 1,
                pts@.len() == flat_index(x as int, 0, 0),
                forall|a: int, b: int, c: int|
                    in_local_range(a, b, c) && #[trigger] flat_index(a, b, c) < pts@.len()
                        ==> pts@[flat_index(a, b, c)] == spec_cube_position(
                        position,
                        neighbor_position,
                        a,
                        b,
                        c,
                    ),
            decreases CHUNK_SIZE + 1 - x,
        {
            let mut y: usize = 0;
            while y < MAX_CHUNK_HEIGHT + 1
                invariant
                    chunk_pos_in_bounds(position),
                    0 <= x < CHUNK_SIZE + 1,
                    0 <= y <= MAX_CHUNK_HEIGHT + 1,
                    pts@.len() == flat_index(x as int, y as int, 0),
                    forall|a: int, b: int, c: int|
                        in_local_range(a, b, c) && #[trigger] flat_index(a, b, c) < pts@.len()
                            ==> pts@[flat_index(a, b, c)] == spec_cube_position(
                            position,
                            neighbor_position,
                            a,
                            b,
                            c,
                        ),
                decreases MAX_CHUNK_HEIGHT + 1 - y,
            {
                let mut z: usize = 0;
                while z < CHUNK_SIZE + 1
                    invariant
                        chunk_pos_in_bounds(position),
                        0 <= x < CHUNK_SIZE + 1,
                        0 <= y < MAX_CHUNK_HEIGHT + 1,
                        0 <= z <= CHUNK_SIZE + 1,
                        pts@.len() == flat_index(x as int, y as int, z as int),
                        forall|a: int, b: int, c: int|
                            in_local_range(a, b, c) && #[trigger] flat_index(a, b, c) < pts@.len()
                                ==> pts@[flat_index(a, b, c)] == spec_cube_position(
                                position,
                                neighbor_position,
                                a,
                                b,
                                c,
                            ),
                    decreases CHUNK_SIZE + 1 - z,
                {
                    // Original cube position without adjustments.
                    let raw = Position {
                        x: position.x * (CHUNK_SIZE as i64) + (x as i64),
                        y: position.y * (MAX_CHUNK_HEIGHT as i64) + (y as i64),
                        z: position.z * (CHUNK_SIZE as i64) + (z as i64),
                    };
                    // Adjust the position based on the neighbor chunk.
                    let adjusted = match neighbor_position {
                        Some(neighbor) if x == 0 && neighbor.x < position.x => Position {
                            x: raw.x - (CHUNK_SIZE as i64),
                            y: raw.y,
                            z: raw.z,
                        },
                        Some(neighbor) if z == 0 && neighbor.z < position.z => Position {
                            x: raw.x,
                            y: raw.y,
                            z: raw.z - (CHUNK_SIZE as i64),
                        },
                        _ => raw,
                    };
                    proof {
                        assert forall|a: int, b: int, c: int|
                            in_local_range(a, b, c) && #[trigger] flat_index(a, b, c)
                                == pts@.len() implies a == x as int && b == y as int && c
                            == z as int by {
                            lemma_flat_index_injective(a, b, c, x as int, y as int, z as int);
                        }
                    }
                    pts.push(adjusted);
                    z = z + 1;
                }
                y = y + 1;
            }
            x = x + 1;
        }
        pts
    }

    /// Generates the chunk at chunk-space coordinate `position`.
    ///
    /// `samples` gives, per voxel slot, whether the combined density at that
    /// slot's (adjusted) sampling point is strictly positive — the points
    /// are the ones [`Chunk::sample_positions`] lists for the same
    /// coordinate and the same neighbor's coordinate.
    #[verifier::loop_isolation(false)]
    pub fn generate(position: Position, neighbor_chunk: Option<&Chunk>, samples: &Vec<bool>) -> (c:
        Chunk)
        requires
            chunk_pos_in_bounds(position),
            samples@.len() == chunk_len(),
        ensures
            c.position == position,
            is_generated(
                c.cubes@,
                position,
                spec_neighbor_position(neighbor_chunk),
                samples@,
            ),
    {
        broadcast use lemma_flat_index_linear;

        let neighbor_position = match neighbor_chunk {
            Some(neighbor) => Some(neighbor.position),
            None => None,
        };
        let pts = Self::sample_positions(position, neighbor_position);
        let ghost nbpos = spec_neighbor_position(neighbor_chunk);

        let mut cubes: Vec<Cube> = Vec::new();
        let mut x: usize = 0;
        while x < CHUNK_SIZE + 1
            invariant
                samples@.len() == chunk_len(),
                pts@.len() == chunk_len(),
                forall|a: int, b: int, c: int|
                    in_local_range(a, b, c) ==> pts@[#[trigger] flat_index(a, b, c)]
                        == spec_cube_position(position, nbpos, a, b, c),
                0 <= x <= CHUNK_SIZE + 1,
                cubes@.len() == flat_index(x as int, 0, 0),
                forall|a: int, b: int, c: int|
                    in_local_range(a, b, c) && #[trigger] flat_index(a, b, c) < cubes@.len()
                        ==> cubes@[flat_index(a, b, c)] == spec_generated_cube(
                        position,
                        nbpos,
                        samples@,
                        a,
                        b,
                        c,
                    ),
            decreases CHUNK_SIZE + 1 - x,
        {
            let mut y: usize = 0;
            while y < MAX_CHUNK_HEIGHT + 1
                invariant
                    samples@.len() == chunk_len(),
                    pts@.len() == chunk_len(),
                    forall|a: int, b: int, c: int|
                        in_local_range(a, b, c) ==> pts@[#[trigger] flat_index(a, b, c)]
                            == spec_cube_position(position, nbpos, a, b, c),
                    0 <= x < CHUNK_SIZE + 1,
                    0 <= y <= MAX_CHUNK_HEIGHT + 1,
                    cubes@.len() == flat_index(x as int, y as int, 0),
                    forall|a: int, b: int, c: int|
                        in_local_range(a, b, c) && #[trigger] flat_index(a, b, c) < cubes@.len()
                            ==> cubes@[flat_index(a, b, c)] == spec_generated_cube(
                            position,
                            nbpos,
                            samples@,
                            a,
                            b,
                            c,
                        ),
                decreases MAX_CHUNK_HEIGHT + 1 - y,
            {
                let mut z: usize = 0;
                while z < CHUNK_SIZE + 1
                    invariant
                        samples@.len() == chunk_len(),
                        pts@.len() == chunk_len(),
                        forall|a: int, b: int, c: int|
                            in_local_range(a, b, c) ==> pts@[#[trigger] flat_index(a, b, c)]
                                == spec_cube_position(position, nbpos, a, b, c),
                        0 <= x < CHUNK_SIZE + 1,
                        0 <= y < MAX_CHUNK_HEIGHT + 1,
                        0 <= z <= CHUNK_SIZE + 1,
                        cubes@.len() == flat_index(x as int, y as int, z as int),
                        forall|a: int, b: int, c: int|
                            in_local_range(a, b, c) && #[trigger] flat_index(a, b, c)
                                < cubes@.len() ==> cubes@[flat_index(a, b, c)]
                                == spec_generated_cube(position, nbpos, samples@, a, b, c),
                    decreases CHUNK_SIZE + 1 - z,
                {
                    let idx = cubes.len();
                    proof {
                        lemma_flat_index_in_range(x as int, y as int, z as int);
                    }
                    let cube_position = pts[idx];
                    let generated_noise_positive = samples[idx];
                    let cube_type = determine_cube_type(generated_noise_positive, cube_position, y);
                    proof {
                        assert forall|a: int, b: int, c: int|
                            in_local_range(a, b, c) && #[trigger] flat_index(a, b, c)
                                == cubes@.len() implies a == x as int && b == y as int && c
                            == z as int by {
                            lemma_flat_index_injective(a, b, c, x as int, y as int, z as int);
                        }
                    }
                    cubes.push(Cube { position: cube_position, _type: cube_type });
                    z = z + 1;
                }
                y = y + 1;
            }
            x = x + 1;
        }
        Chunk::new(position, cubes)
    }
}


/// Whether `cubes` holds a voxel at exactly `p`.
pub open spec fn spec_has_cube(cubes: Seq<Cube>, p: Position) -> bool {
    exists|i: int| 0 <= i < cubes.len() && (#[trigger] cubes[i]).position == p
}

/// The kind of the first voxel in `cubes` placed at exactly `p`, if any
/// (lookup follows scan order).
pub open spec fn cube_type_at(cubes: Seq<Cube>, p: Position) -> Option<CubeType>
    decreases cubes.len(),
{
    if cubes.len() == 0 {
        None
    } else if cubes[0].position == p {
        Some(cubes[0]._type)
    } else {
        cube_type_at(cubes.drop_first(), p)
    }
}

/// Whether no two voxels of `cubes` share a position.
pub open spec fn unique_positions(cubes: Seq<Cube>) -> bool {
    forall|i: int, j: int|
        0 <= i < j < cubes.len() ==> (#[trigger] cubes[i]).position != (#[trigger] cubes[j]).position
}

/// A position lookup succeeds exactly when some voxel sits at the position.
pub proof fn lemma_cube_type_at_present(cubes: Seq<Cube>, p: Position)
    ensures
        cube_type_at(cubes, p) is Some <==> spec_has_cube(cubes, p),
    decreases cubes.len(),
{
    if cubes.len() == 0 {
    } else if cubes[0].position == p {
        assert(spec_has_cube(cubes, p));
    } else {
        lemma_cube_type_at_present(cubes.drop_first(), p);
        if spec_has_cube(cubes.drop_first(), p) {
            let i = choose|i: int|
                0 <= i < cubes.drop_first().len() && (#[trigger] cubes.drop_first()[i]).position
                    == p;
            assert(cubes[i + 1].position == p);
        }
        if spec_has_cube(cubes, p) {
            let i = choose|i: int| 0 <= i < cubes.len() && (#[trigger] cubes[i]).position == p;
            assert(cubes.drop_first()[i - 1].position == p);
        }
    }
}

/// With unique positions, looking up a voxel's own position yields its kind.
pub proof fn lemma_cube_type_at_unique(cubes: Seq<Cube>, p: Position, i: int)
    requires
        unique_positions(cubes),
        0 <= i < cubes.len(),
        cubes[i].position == p,
    ensures
        cube_type_at(cubes, p) == Some(cubes[i]._type),
    decreases cubes.len(),
{
    if i == 0 {
    } else {
        assert(cubes[0].position != p);
        assert(unique_positions(cubes.drop_first())) by {
            assert forall|a: int, b: int| 0 <= a < b < cubes.drop_first().len() implies (
            #[trigger] cubes.drop_first()[a]).position != (#[trigger] cubes.drop_first()[b]).position by {
                assert(cubes[a + 1].position != cubes[b + 1].position);
            }
        }
        assert(cubes.drop_first()[i - 1] == cubes[i]);
        lemma_cube_type_at_unique(cubes.drop_first(), p, i - 1);
    }
}

impl Chunk {
    /// Checks whether this chunk contains a voxel at the given position.
    pub fn has_cube(&self, cube_position: Position) -> (r: bool)
        ensures
            r == spec_has_cube(self.cubes@, cube_position),
    {
        let mut i: usize = 0;
        while i < self.cubes.len()
            invariant
                0 <= i <= self.cubes@.len(),
                forall|j: int| 0 <= j < i ==> (#[trigger] self.cubes@[j]).position != cube_position,
            decreases self.cubes@.len() - i,
        {
            if self.cubes[i].position == cube_position {
                return true;
            }
            i = i + 1;
        }
        false
    }

    /// Looks up the kind of the voxel at the given position, or `None` when
    /// no voxel occupies it. A miss is an ordinary outcome: occlusion checks
    /// legitimately probe positions outside the chunk's footprint.
    pub fn at(&self, cube_position: Position) -> (r: Option<CubeType>)
        ensures
            r == cube_type_at(self.cubes@, cube_position),
    {
        proof {
            assert(self.cubes@.skip(0) =~= self.cubes@);
        }
        let mut i: usize = 0;
        while i < self.cubes.len()
            invariant
                0 <= i <= self.cubes@.len(),
                cube_type_at(self.cubes@, cube_position) == cube_type_at(
                    self.cubes@.skip(i as int),
                    cube_position,
                ),
            decreases self.cubes@.len() - i,
        {
            proof {
                assert(self.cubes@.skip(i as int)[0] == self.cubes@[i as int]);
                assert(self.cubes@.skip(i as int).drop_first() =~= self.cubes@.skip(i as int + 1));
            }
            if self.cubes[i].position == cube_position {
                return Some(self.cubes[i]._type);
            }
            i = i + 1;
        }
        proof {
            assert(self.cubes@.skip(i as int) =~= Seq::<Cube>::empty());
        }
        None
    }

    /// Replaces the kind of the first voxel at the given position, leaving
    /// the chunk unchanged when no voxel occupies it.
    pub fn set(&mut self, position: Position, _type: CubeType)
        ensures
            final(self).position == old(self).position,
            !spec_has_cube(old(self).cubes@, position) ==> final(self).cubes@ == old(self).cubes@,
            spec_has_cube(old(self).cubes@, position) ==> exists|i: int|
                {
                    &&& 0 <= i < old(self).cubes@.len()
                    &&& (#[trigger] old(self).cubes@[i]).position == position
                    &&& forall|j: int| 0 <= j < i ==> old(self).cubes@[j].position != position
                    &&& final(self).cubes@ == old(self).cubes@.update(i, (Cube { position, _type }))
                },
    {
        let mut i: usize = 0;
        while i < self.cubes.len()
            invariant
                *self == *old(self),
                0 <= i <= self.cubes@.len(),
                forall|j: int| 0 <= j < i ==> (#[trigger] self.cubes@[j]).position != position,
            decreases self.cubes@.len() - i,
        {
            if self.cubes[i].position == position {
                self.cubes[i] = Cube { position, _type };
                return ;
            }
            i = i + 1;
        }
    }
}

/// Generation is deterministic: two voxel sequences generated from the same
/// coordinate, the same neighbor hint and the same density samples are
/// identical — same positions, same kinds.
pub proof fn lemma_generate_deterministic(
    c1: Chunk,
    c2: Chunk,
    position: Position,
    neighbor: Option<Position>,
    samples: Seq<bool>,
)
    requires
        c1.position == position,
        c2.position == position,
        is_generated(c1.cubes@, position, neighbor, samples),
        is_generated(c2.cubes@, position, neighbor, samples),
    ensures
        c1.position == c2.position,
        c1.cubes@ == c2.cubes@,
{
    assert forall|i: int| 0 <= i < c1.cubes@.len() implies c1.cubes@[i] == c2.cubes@[i] by {
        lemma_flat_index_decode(i);
        let (x, y, z) = choose|x: int, y: int, z: int|
            in_local_range(x, y, z) && #[trigger] flat_index(x, y, z) == i;
        assert(c1.cubes@[flat_index(x, y, z)] == spec_generated_cube(
            position,
            neighbor,
            samples,
            x,
            y,
            z,
        ));
        assert(c2.cubes@[flat_index(x, y, z)] == spec_generated_cube(
            position,
            neighbor,
            samples,
            x,
            y,
            z,
        ));
    }
    assert(c1.cubes@ =~= c2.cubes@);
}

/// Bedrock: in a generated chunk, every voxel of the lowest generated layer
/// (local vertical index 0) is stone, whatever the density samples say.
pub proof fn lemma_bedrock(
    cubes: Seq<Cube>,
    position: Position,
    neighbor: Option<Position>,
    samples: Seq<bool>,
)
    requires
        is_generated(cubes, position, neighbor, samples),
    ensures
        forall|x: int, z: int|
            0 <= x < side_len() && 0 <= z < side_len() ==> cubes[#[trigger] flat_index(
                x,
                0,
                z,
            )]._type == CubeType::STONE,
{
    assert forall|x: int, z: int| 0 <= x < side_len() && 0 <= z < side_len() implies cubes[
    #[trigger] flat_index(x, 0, z)]._type == CubeType::STONE by {
        assert(in_local_range(x, 0, z));
        assert(cubes[flat_index(x, 0, z)] == spec_generated_cube(
            position,
            neighbor,
            samples,
            x,
            0,
            z,
        ));
    }
}

/// The mapping from local index to generated voxel position is injective.
pub proof fn lemma_cube_position_injective(
    position: Position,
    neighbor: Option<Position>,
    a: int,
    b: int,
    c: int,
    x: int,
    y: int,
    z: int,
)
    requires
        chunk_pos_in_bounds(position),
        in_local_range(a, b, c),
        in_local_range(x, y, z),
        spec_cube_position(position, neighbor, a, b, c) == spec_cube_position(
            position,
            neighbor,
            x,
            y,
            z,
        ),
    ensures
        a == x && b == y && c == z,
{
}

/// No two voxels of a generated chunk share a position: each voxel's
/// position is uniquely determined by its slot.
pub proof fn lemma_generated_positions_unique(
    cubes: Seq<Cube>,
    position: Position,
    neighbor: Option<Position>,
    samples: Seq<bool>,
)
    requires
        chunk_pos_in_bounds(position),
        is_generated(cubes, position, neighbor, samples),
    ensures
        unique_positions(cubes),
{
    assert forall|i: int, j: int| 0 <= i < j < cubes.len() implies (#[trigger] cubes[i]).position
        != (#[trigger] cubes[j]).position by {
        lemma_flat_index_decode(i);
        lemma_flat_index_decode(j);
        let (x1, y1, z1) = choose|x: int, y: int, z: int|
            in_local_range(x, y, z) && #[trigger] flat_index(x, y, z) == i;
        let (x2, y2, z2) = choose|x: int, y: int, z: int|
            in_local_range(x, y, z) && #[trigger] flat_index(x, y, z) == j;
        assert(cubes[flat_index(x1, y1, z1)] == spec_generated_cube(
            position,
            neighbor,
            samples,
            x1,
            y1,
            z1,
        ));
        assert(cubes[flat_index(x2, y2, z2)] == spec_generated_cube(
            position,
            neighbor,
            samples,
            x2,
            y2,
            z2,
        ));
        if cubes[i].position == cubes[j].position {
            lemma_cube_position_injective(position, neighbor, x1, y1, z1, x2, y2, z2);
            lemma_flat_index_injective(x1, y1, z1, x2, y2, z2);
        }
    }
}


/// Whether every voxel position of the chunk leaves room for unit offsets
/// in `i64` arithmetic (forced by the machine word).
pub open spec fn cubes_have_representable_neighbors(chunk: Chunk) -> bool {
    forall|i: int|
        0 <= i < chunk.cubes@.len() ==> has_representable_neighbors(
            (#[trigger] chunk.cubes@[i]).position,
        )
}

/// The first `n` voxels of the chunk that are not occluded, in storage
/// order.
pub open spec fn spec_visible_prefix(chunk: Chunk, n: int) -> Seq<Cube>
    decreases n,
{
    if n <= 0 {
        Seq::empty()
    } else if !spec_blocked(chunk.cubes@[n - 1], chunk) {
        spec_visible_prefix(chunk, n - 1).push(chunk.cubes@[n - 1])
    } else {
        spec_visible_prefix(chunk, n - 1)
    }
}

/// The voxels of the chunk that are not occluded, in storage order: what
/// the rendering boundary draws.
pub open spec fn spec_visible_cubes(chunk: Chunk) -> Seq<Cube> {
    spec_visible_prefix(chunk, chunk.cubes@.len() as int)
}

impl Chunk {
    /// Checks at run time that every voxel position leaves room for unit
    /// offsets, as [`Chunk::visible_cubes`] requires.
    pub fn positions_in_bounds(&self) -> (r: bool)
        ensures
            r == cubes_have_representable_neighbors(*self),
    {
        let mut i: usize = 0;
        while i < self.cubes.len()
            invariant
                0 <= i <= self.cubes@.len(),
                forall|j: int|
                    0 <= j < i ==> has_representable_neighbors(
                        (#[trigger] self.cubes@[j]).position,
                    ),
            decreases self.cubes@.len() - i,
        {
            let p = self.cubes[i].position;
            if !(p.x > i64::MIN && p.x < i64::MAX && p.y > i64::MIN && p.y < i64::MAX && p.z
                > i64::MIN && p.z < i64::MAX) {
                return false;
            }
            i = i + 1;
        }
        true
    }

    /// Collects the voxels of this chunk that are not occluded, in storage
    /// order — the per-voxel data handed to the rendering boundary.
    pub fn visible_cubes(&self) -> (r: Vec<Cube>)
        requires
            cubes_have_representable_neighbors(*self),
        ensures
            r@ == spec_visible_cubes(*self),
    {
        let mut r: Vec<Cube> = Vec::new();
        let mut i: usize = 0;
        while i < self.cubes.len()
            invariant
                cubes_have_representable_neighbors(*self),
                0 <= i <= self.cubes@.len(),
                r@ == spec_visible_prefix(*self, i as int),
            decreases self.cubes@.len() - i,
        {
            let cube = self.cubes[i];
            if !cube.is_blocked(self) {
                r.push(cube);
            }
            i = i + 1;
        }
        r
    }
}


/// Boundary stitching along x: in a chunk generated against a neighbor
/// lying below it on the x axis, every voxel of the local-x = 0 overlap
/// layer sits one chunk footprint lower on x than the chunk's own span —
/// aligned with the neighbor instead of duplicating the seam.
pub proof fn lemma_boundary_stitch_x(
    cubes: Seq<Cube>,
    position: Position,
    neighbor: Position,
    samples: Seq<bool>,
    y: int,
    z: int,
)
    requires
        chunk_pos_in_bounds(position),
        is_generated(cubes, position, Some(neighbor), samples),
        neighbor.x < position.x,
        0 <= y < height_len(),
        0 <= z < side_len(),
    ensures
        cubes[flat_index(0, y, z)].position.x == position.x * (CHUNK_SIZE as int) - (
        CHUNK_SIZE as int),
{
    assert(in_local_range(0, y, z));
    assert(cubes[flat_index(0, y, z)] == spec_generated_cube(
        position,
        Some(neighbor),
        samples,
        0,
        y,
        z,
    ));
}

/// Boundary stitching along z, the symmetric rule: it applies when the
/// x rule cannot (the two branches are exclusive, x first), so it is stated
/// for a neighbor that is not below on the x axis.
pub proof fn lemma_boundary_stitch_z(
    cubes: Seq<Cube>,
    position: Position,
    neighbor: Position,
    samples: Seq<bool>,
    x: int,
    y: int,
)
    requires
        chunk_pos_in_bounds(position),
        is_generated(cubes, position, Some(neighbor), samples),
        neighbor.x >= position.x,
        neighbor.z < position.z,
        0 <= x < side_len(),
        0 <= y < height_len(),
    ensures
        cubes[flat_index(x, y, 0)].position.z == position.z * (CHUNK_SIZE as int) - (
        CHUNK_SIZE as int),
{
    assert(in_local_range(x, y, 0));
    assert(cubes[flat_index(x, y, 0)] == spec_generated_cube(
        position,
        Some(neighbor),
        samples,
        x,
        y,
        0,
    ));
}

} // verus!

