use vstd::prelude::*;

verus! {

/// The texture-atlas region of one block face, in atlas pixel coordinates.
#[derive(Copy, Clone, PartialEq, Eq, Structural, Debug)]
pub struct BlockFaceConfig {
    pub x: i32,
    pub y: i32,
    pub w: i32,
    pub h: i32,
}

/// The atlas regions of a block's three distinct faces.
#[derive(Copy, Clone, PartialEq, Eq, Structural, Debug)]
pub struct BlockConfig {
    pub top: BlockFaceConfig,
    pub bottom: BlockFaceConfig,
    pub side: BlockFaceConfig,
}

/// The texture-atlas configuration: block configurations keyed by block
/// name. Keys are unique ([`BlockTypeConfig::wf`]); entries are added
/// through [`BlockTypeConfig::add_block`], which refuses duplicates.
#[derive(Debug)]
pub struct BlockTypeConfig {
    pub blocks: Vec<(String, BlockConfig)>,
}

/// Whether some entry of `blocks` carries the key `name`.
pub open spec fn spec_has_block(blocks: Seq<(String, BlockConfig)>, name: Seq<char>) -> bool {
    exists|i: int| 0 <= i < blocks.len() && (#[trigger] blocks[i]).0@ == name
}

/// The configuration of the first entry keyed `name`, if any.
pub open spec fn spec_block_lookup(
    blocks: Seq<(String, BlockConfig)>,
    name: Seq<char>,
) -> Option<BlockConfig>
    decreases blocks.len(),
{
    if blocks.len() == 0 {
        None
    } else if blocks[0].0@ == name {
        Some(blocks[0].1)
    } else {
        spec_block_lookup(blocks.drop_first(), name)
    }
}

/// The face region selected by a face name: an unknown face name falls back
/// to the top face.
pub open spec fn spec_face_config(b: BlockConfig, face: Seq<char>) -> BlockFaceConfig {
    if face == "top"@ {
        b.top
    } else if face == "bottom"@ {
        b.bottom
    } else if face == "side"@ {
        b.side
    } else {
        b.top
    }
}

/// The atlas region returned for a block and face name: the configured
/// region when the block is known, and the fixed default region when the
/// configuration has no such block.
pub open spec fn spec_texture_coordinates(
    cfg: BlockTypeConfig,
    name: Seq<char>,
    face: Seq<char>,
) -> (i32, i32, i32, i32) {
    match spec_block_lookup(cfg.blocks@, name) {
        Some(b) => {
            let f = spec_face_config(b, face);
            (f.x, f.y, f.w, f.h)
        },
        None => (1, 1, 160, 160),
    }
}

/// Compares two string slices by their characters.
fn str_eq(a: &str, b: &str) -> (r: bool)
    ensures
        r == (a@ == b@),
{
    let oa: String = a.to_owned();
    let ob: String = b.to_owned();
    oa == ob
}

impl BlockTypeConfig {
    /// Whether block names are unique, as they are in a configuration built
    /// through [`BlockTypeConfig::add_block`].
    pub open spec fn wf(self) -> bool {
        forall|i: int, j: int|
            0 <= i < j < self.blocks@.len() ==> (#[trigger] self.blocks@[i]).0@ != (
            #[trigger] self.blocks@[j]).0@
    }

    /// An empty configuration.
    pub fn new() -> (cfg: BlockTypeConfig)
        ensures
            cfg.blocks@.len() == 0,
            cfg.wf(),
    {
        BlockTypeConfig { blocks: Vec::new() }
    }

    /// Adds a block configuration under `name`, refusing a duplicate name;
    /// returns whether the entry was added. Name uniqueness is preserved.
    pub fn add_block(&mut self, name: String, config: BlockConfig) -> (added: bool)
        ensures
            added == !spec_has_block(old(self).blocks@, name@),
            added ==> final(self).blocks@ == old(self).blocks@.push((name, config)),
            !added ==> final(self).blocks@ == old(self).blocks@,
            old(self).wf() ==> final(self).wf(),
    {
        let mut i: usize = 0;
        while i < self.blocks.len()
            invariant
                *self == *old(self),
                0 <= i <= self.blocks@.len(),
                forall|j: int| 0 <= j < i ==> (#[trigger] self.blocks@[j]).0@ != name@,
            decreases self.blocks@.len() - i,
        {
            if str_eq(self.blocks[i].0.as_str(), name.as_str()) {
                return false;
            }
            i = i + 1;
        }
        let ghost old_blocks = self.blocks@;
        self.blocks.push((name, config));
        proof {
            if old(self).wf() {
                assert forall|a: int, b: int| 0 <= a < b < self.blocks@.len() implies (
                #[trigger] self.blocks@[a]).0@ != (#[trigger] self.blocks@[b]).0@ by {
                    if b == old_blocks.len() as int {
                        assert(self.blocks@[a] == old_blocks[a]);
                    }
                }
            }
        }
        true
    }

    /// Returns the atlas region for a block and face name. An unknown face
    /// name falls back to the block's top face; an unknown block name falls
    /// back to the fixed default region, so a missing configuration entry
    /// never fails the caller.
    pub fn get_texture_coordinates(&self, block_type: &str, face: &str) -> (r: (
        i32,
        i32,
        i32,
        i32,
    ))
        ensures
            r == spec_texture_coordinates(*self, block_type@, face@),
    {
        proof {
            assert(self.blocks@.skip(0) =~= self.blocks@);
        }
        let mut i: usize = 0;
        while i < self.blocks.len()
            invariant
                0 <= i <= self.blocks@.len(),
                spec_block_lookup(self.blocks@, block_type@) == spec_block_lookup(
                    self.blocks@.skip(i as int),
                    block_type@,
                ),
            decreases self.blocks@.len() - i,
        {
            proof {
                assert(self.blocks@.skip(i as int)[0] == self.blocks@[i as int]);
                assert(self.blocks@.skip(i as int).drop_first() =~= self.blocks@.skip(
                    i as int + 1,
                ));
            }
            if str_eq(self.blocks[i].0.as_str(), block_type) {
                let block_config = &self.blocks[i].1;
                let face_config = if str_eq(face, "top") {
                    &block_config.top
                } else if str_eq(face, "bottom") {
                    &block_config.bottom
                } else if str_eq(face, "side") {
                    &block_config.side
                } else {
                    // Default to the top face if an invalid face is specified.
                    &block_config.top
                };
                return (face_config.x, face_config.y, face_config.w, face_config.h);
            }
            i = i + 1;
        }
        proof {
            assert(self.blocks@.skip(i as int) =~= Seq::<(String, BlockConfig)>::empty());
        }
        // Default to a generic texture region when the block is not
        // configured.
        (1, 1, 160, 160)
    }
}

} // verus!
