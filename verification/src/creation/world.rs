use crate::creation::chunk::{
    chunk_len, chunk_pos_in_bounds, cubes_have_representable_neighbors, flat_index, in_local_range,
    is_generated, spec_cube_position, spec_visible_cubes, Chunk,
};
use crate::creation::cube::{Cube, Position};
use crate::game_specs::{CHUNK_SIZE, NUM_CHUNKS};
use vstd::arithmetic::div_mod::{lemma_fundamental_div_mod, lemma_mod_bound};
use vstd::prelude::*;

verus! {

/// The generated world: a seed fixing all density sampling, and the chunks
/// generated so far. Chunks are only ever appended; at most one chunk exists
/// per coordinate.
pub struct World {
    pub chunks: Vec<Chunk>,
    pub world_seed: u32,
}

/// The first chunk (in storage order) at coordinate `p`, if any.
pub open spec fn spec_chunk_at(chunks: Seq<Chunk>, p: Position) -> Option<Chunk>
    decreases chunks.len(),
{
    if chunks.len() == 0 {
        None
    } else if chunks[0].position == p {
        Some(chunks[0])
    } else {
        spec_chunk_at(chunks.drop_first(), p)
    }
}

/// Whether some chunk occupies coordinate `p`.
pub open spec fn spec_chunk_exists(chunks: Seq<Chunk>, p: Position) -> bool {
    exists|i: int| 0 <= i < chunks.len() && (#[trigger] chunks[i]).position == p
}

/// The world invariant: no two chunks share a coordinate.
pub open spec fn at_most_one_chunk_per_coordinate(chunks: Seq<Chunk>) -> bool {
    forall|i: int, j: int|
        0 <= i < j < chunks.len() ==> (#[trigger] chunks[i]).position != (
        #[trigger] chunks[j]).position
}

/// In a well-formed world there is at most one chunk at any coordinate: two
/// entries at the same coordinate are the same entry.
pub proof fn lemma_at_most_one_chunk(chunks: Seq<Chunk>, i: int, j: int)
    requires
        at_most_one_chunk_per_coordinate(chunks),
        0 <= i < chunks.len(),
        0 <= j < chunks.len(),
        chunks[i].position == chunks[j].position,
    ensures
        i == j,
{
}

/// The coordinate of the initial-grid chunk at grid slot `(x, z)`: the grid
/// is laid out at a fixed vertical layer.
pub open spec fn spec_initial_position(x: int, z: int) -> Position {
    Position { x: x as i64, y: -1i64, z: z as i64 }
}

/// The neighbor hint used when generating the initial-grid chunk at slot
/// `(x, z)`: the previously generated chunk in iteration order (`x` outer,
/// `z` inner), or none for the very first chunk.
pub open spec fn spec_initial_neighbor(x: int, z: int) -> Option<Position> {
    if z > 0 {
        Some(spec_initial_position(x, z - 1))
    } else if x > 0 {
        Some(spec_initial_position(x - 1, NUM_CHUNKS as int - 1))
    } else {
        None
    }
}

/// The position of grid slot `(x, z)` in the initial chunk sequence.
pub open spec fn grid_index(x: int, z: int) -> int {
    x * (NUM_CHUNKS as int) + z
}

/// `grid_index` written out linearly over the fixed grid side.
pub broadcast proof fn lemma_grid_index_linear(x: int, z: int)
    ensures
        #[trigger] grid_index(x, z) == 6 * x + z,
{
    assert(grid_index(x, z) == 6 * x + z) by (nonlinear_arith)
        requires
            grid_index(x, z) == x * (NUM_CHUNKS as int) + z,
            NUM_CHUNKS == 6,
    ;
}

/// The initial grid holds one chunk per slot.
pub proof fn lemma_grid_len_value()
    ensures
        NUM_CHUNKS * NUM_CHUNKS == 36,
{
    assert(NUM_CHUNKS * NUM_CHUNKS == 36) by (nonlinear_arith)
        requires
            NUM_CHUNKS == 6,
    ;
}

/// Every index below the grid length is the slot of exactly one grid pair.
pub proof fn lemma_grid_index_decode(i: int)
    requires
        0 <= i < NUM_CHUNKS * NUM_CHUNKS,
    ensures
        exists|x: int, z: int|
            0 <= x < NUM_CHUNKS && 0 <= z < NUM_CHUNKS && #[trigger] grid_index(x, z) == i,
{
    broadcast use lemma_grid_index_linear;

    lemma_grid_len_value();
    let x = i / 6;
    let z = i % 6;
    lemma_fundamental_div_mod(i, 6);
    lemma_mod_bound(i, 6);
    assert(0 <= x < NUM_CHUNKS && 0 <= z < NUM_CHUNKS && grid_index(x, z) == i);
}

/// The coordinate at offset `+CHUNK_SIZE` along z, probed as the neighbor
/// candidate when a chunk is generated on demand.
pub open spec fn spec_offset_z(p: Position) -> Position {
    Position { x: p.x, y: p.y, z: (p.z + CHUNK_SIZE as int) as i64 }
}

/// The neighbor hint an on-demand generation at `p` works with: the
/// coordinate of the chunk found at the z offset, if any.
pub open spec fn spec_neighbor_hint(chunks: Seq<Chunk>, p: Position) -> Option<Position> {
    match spec_chunk_at(chunks, spec_offset_z(p)) {
        Some(c) => Some(c.position),
        None => None,
    }
}

/// Whether the chunk at grid slot `(x, z)` of `chunks` is the one generated
/// for that slot from `samples`, against the previous chunk in iteration
/// order.
pub open spec fn initial_chunk_ok(
    chunks: Seq<Chunk>,
    samples: Seq<Vec<bool>>,
    x: int,
    z: int,
) -> bool {
    let c = chunks[grid_index(x, z)];
    &&& c.position == spec_initial_position(x, z)
    &&& is_generated(
        c.cubes@,
        spec_initial_position(x, z),
        spec_initial_neighbor(x, z),
        samples[grid_index(x, z)]@,
    )
}

impl World {
    /// Builds a world from a seed and the density samples of the initial
    /// `NUM_CHUNKS` by `NUM_CHUNKS` chunk grid.
    ///
    /// `samples` holds one sample sequence per grid slot, in iteration
    /// order (`x` outer, `z` inner); each sequence gives the density sign
    /// bits at the points [`Chunk::sample_positions`] lists for that slot's
    /// coordinate and neighbor hint. Each new chunk is generated against
    /// the previously generated one, so adjacent sample sequences must be
    /// taken against that hint.
    #[verifier::loop_isolation(false)]
    pub fn new(world_seed: u32, samples: &Vec<Vec<bool>>) -> (w: World)
        requires
            samples@.len() == NUM_CHUNKS * NUM_CHUNKS,
            forall|k: int|
                0 <= k < samples@.len() ==> (#[trigger] samples@[k])@.len() == chunk_len(),
        ensures
            w.world_seed == world_seed,
            w.chunks@.len() == NUM_CHUNKS * NUM_CHUNKS,
            forall|x: int, z: int|
                0 <= x < NUM_CHUNKS && 0 <= z < NUM_CHUNKS ==> #[trigger] initial_chunk_ok(
                    w.chunks@,
                    samples@,
                    x,
                    z,
                ),
            at_most_one_chunk_per_coordinate(w.chunks@),
    {
        broadcast use lemma_grid_index_linear;

        proof {
            lemma_grid_len_value();
        }
        let mut chunks: Vec<Chunk> = Vec::new();
        let mut x: usize = 0;
        while x < NUM_CHUNKS
            invariant
                0 <= x <= NUM_CHUNKS,
                chunks@.len() == grid_index(x as int, 0),
                forall|a: int, b: int|
                    0 <= a < NUM_CHUNKS && 0 <= b < NUM_CHUNKS && #[trigger] grid_index(a, b)
                        < chunks@.len() ==> initial_chunk_ok(chunks@, samples@, a, b),
            decreases NUM_CHUNKS - x,
        {
            let mut z: usize = 0;
            while z < NUM_CHUNKS
                invariant
                    0 <= x < NUM_CHUNKS,
                    0 <= z <= NUM_CHUNKS,
                    chunks@.len() == grid_index(x as int, z as int),
                    forall|a: int, b: int|
                        0 <= a < NUM_CHUNKS && 0 <= b < NUM_CHUNKS && #[trigger] grid_index(a, b)
                            < chunks@.len() ==> initial_chunk_ok(chunks@, samples@, a, b),
                decreases NUM_CHUNKS - z,
            {
                let k = chunks.len();
                let new_chunk_position = Position { x: x as i64, y: -1i64, z: z as i64 };
                proof {
                    // The previous chunk in iteration order sits at the
                    // neighbor-hint slot for (x, z).
                    if k > 0 {
                        if z > 0 {
                            assert(grid_index(x as int, z as int - 1) == k - 1);
                        } else {
                            assert(grid_index(x as int - 1, NUM_CHUNKS as int - 1) == k - 1);
                        }
                    }
                }
                let new_chunk = if k == 0 {
                    Chunk::generate(new_chunk_position, None, &samples[k])
                } else {
                    Chunk::generate(new_chunk_position, Some(&chunks[k - 1]), &samples[k])
                };
                chunks.push(new_chunk);
                z = z + 1;
            }
            x = x + 1;
        }
        proof {
            assert forall|i: int, j: int| 0 <= i < j < chunks@.len() implies (
            #[trigger] chunks@[i]).position != (#[trigger] chunks@[j]).position by {
                lemma_grid_index_decode(i);
                lemma_grid_index_decode(j);
                let (a1, b1) = choose|a: int, b: int|
                    0 <= a < NUM_CHUNKS && 0 <= b < NUM_CHUNKS && #[trigger] grid_index(a, b) == i;
                let (a2, b2) = choose|a: int, b: int|
                    0 <= a < NUM_CHUNKS && 0 <= b < NUM_CHUNKS && #[trigger] grid_index(a, b) == j;
                assert(initial_chunk_ok(chunks@, samples@, a1, b1));
                assert(initial_chunk_ok(chunks@, samples@, a2, b2));
            }
        }
        World { chunks, world_seed }
    }

    /// Finds the chunk at the given chunk-space coordinate, if any.
    pub fn get_chunk_at(&self, position: Position) -> (r: Option<&Chunk>)
        ensures
            match r {
                Some(c) => spec_chunk_at(self.chunks@, position) == Some(*c),
                None => spec_chunk_at(self.chunks@, position) is None,
            },
    {
        proof {
            assert(self.chunks@.skip(0) =~= self.chunks@);
        }
        let mut i: usize = 0;
        while i < self.chunks.len()
            invariant
                0 <= i <= self.chunks@.len(),
                spec_chunk_at(self.chunks@, position) == spec_chunk_at(
                    self.chunks@.skip(i as int),
                    position,
                ),
            decreases self.chunks@.len() - i,
        {
            proof {
                assert(self.chunks@.skip(i as int)[0] == self.chunks@[i as int]);
                assert(self.chunks@.skip(i as int).drop_first() =~= self.chunks@.skip(
                    i as int + 1,
                ));
            }
            if self.chunks[i].position == position {
                return Some(&self.chunks[i]);
            }
            i = i + 1;
        }
        proof {
            assert(self.chunks@.skip(i as int) =~= Seq::<Chunk>::empty());
        }
        None
    }

    /// Checks whether a chunk already occupies the given coordinate.
    pub fn chunk_exists(&self, position: Position) -> (r: bool)
        ensures
            r == spec_chunk_exists(self.chunks@, position),
    {
        let mut i: usize = 0;
        while i < self.chunks.len()
            invariant
                0 <= i <= self.chunks@.len(),
                forall|j: int| 0 <= j < i ==> (#[trigger] self.chunks@[j]).position != position,
            decreases self.chunks@.len() - i,
        {
            if self.chunks[i].position == position {
                return true;
            }
            i = i + 1;
        }
        false
    }

    /// The points at which the density field must be sampled before calling
    /// [`World::generate_chunk`] for `position`: the sampling points of that
    /// chunk against the neighbor hint this world would pick.
    pub fn sample_positions_for(&self, position: Position) -> (pts: Vec<Position>)
        requires
            chunk_pos_in_bounds(position),
            position.z + CHUNK_SIZE <= i64::MAX,
        ensures
            pts@.len() == chunk_len(),
            forall|x: int, y: int, z: int|
                in_local_range(x, y, z) ==> pts@[#[trigger] flat_index(x, y, z)]
                    == spec_cube_position(
                    position,
                    spec_neighbor_hint(self.chunks@, position),
                    x,
                    y,
                    z,
                ),
    {
        let neighbor_chunk_z = self.get_chunk_at(
            Position { x: position.x, y: position.y, z: position.z + (CHUNK_SIZE as i64) },
        );
        let neighbor_position = match neighbor_chunk_z {
            Some(c) => Some(c.position),
            None => None,
        };
        Chunk::sample_positions(position, neighbor_position)
    }

    /// Generates and appends the chunk at `position`, unless one already
    /// occupies that coordinate, in which case the world is left unchanged.
    /// The new chunk is generated against the chunk found at offset
    /// `+CHUNK_SIZE` along z, when present ([`World::sample_positions_for`]
    /// lists the matching sampling points). At most one chunk per
    /// coordinate is preserved.
    pub fn generate_chunk(&mut self, position: Position, samples: &Vec<bool>)
        requires
            chunk_pos_in_bounds(position),
            position.x + CHUNK_SIZE <= i64::MAX,
            position.z + CHUNK_SIZE <= i64::MAX,
            samples@.len() == chunk_len(),
        ensures
            final(self).world_seed == old(self).world_seed,
            spec_chunk_exists(old(self).chunks@, position) ==> *final(self) == *old(self),
            !spec_chunk_exists(old(self).chunks@, position) ==> {
                &&& final(self).chunks@.len() == old(self).chunks@.len() + 1
                &&& final(self).chunks@.subrange(0, old(self).chunks@.len() as int) == old(
                    self,
                ).chunks@
                &&& final(self).chunks@.last().position == position
                &&& is_generated(
                    final(self).chunks@.last().cubes@,
                    position,
                    spec_neighbor_hint(old(self).chunks@, position),
                    samples@,
                )
            },
            at_most_one_chunk_per_coordinate(old(self).chunks@)
                ==> at_most_one_chunk_per_coordinate(final(self).chunks@),
    {
        if !self.chunk_exists(position) {
            // Check whether the neighboring chunks exist.
            let _neighbor_chunk_x = self.get_chunk_at(
                Position { x: position.x + (CHUNK_SIZE as i64), y: position.y, z: position.z },
            );
            let neighbor_chunk_z = self.get_chunk_at(
                Position { x: position.x, y: position.y, z: position.z + (CHUNK_SIZE as i64) },
            );

            let chunk = Chunk::generate(position, neighbor_chunk_z, samples);
            let ghost old_chunks = self.chunks@;
            self.chunks.push(chunk);
            proof {
                assert(self.chunks@.subrange(0, old_chunks.len() as int) =~= old_chunks);
                if at_most_one_chunk_per_coordinate(old_chunks) {
                    assert forall|i: int, j: int| 0 <= i < j < self.chunks@.len() implies (
                    #[trigger] self.chunks@[i]).position != (#[trigger] self.chunks@[j]).position by {
                        if j == old_chunks.len() as int {
                            assert(self.chunks@[i] == old_chunks[i]);
                        }
                    }
                }
            }
        }
    }

    /// Collects, chunk by chunk, every voxel of the world that is not
    /// occluded within its own chunk — the sequence the rendering boundary
    /// consumes.
    pub fn visible_cubes(&self) -> (r: Vec<Cube>)
        requires
            forall|i: int|
                0 <= i < self.chunks@.len() ==> cubes_have_representable_neighbors(
                    #[trigger] self.chunks@[i],
                ),
        ensures
            r@ == spec_world_visible_prefix(self.chunks@, self.chunks@.len() as int),
    {
        let mut r: Vec<Cube> = Vec::new();
        let mut i: usize = 0;
        while i < self.chunks.len()
            invariant
                forall|j: int|
                    0 <= j < self.chunks@.len() ==> cubes_have_representable_neighbors(
                        #[trigger] self.chunks@[j],
                    ),
                0 <= i <= self.chunks@.len(),
                r@ == spec_world_visible_prefix(self.chunks@, i as int),
            decreases self.chunks@.len() - i,
        {
            let mut vis = self.chunks[i].visible_cubes();
            r.append(&mut vis);
            i = i + 1;
        }
        r
    }
}

/// The visible voxels of the first `n` chunks, concatenated in chunk order.
pub open spec fn spec_world_visible_prefix(chunks: Seq<Chunk>, n: int) -> Seq<Cube>
    decreases n,
{
    if n <= 0 {
        Seq::empty()
    } else {
        spec_world_visible_prefix(chunks, n - 1) + spec_visible_cubes(chunks[n - 1])
    }
}

} // verus!
