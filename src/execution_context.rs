//! What the bytecode works on besides the machine's own state.

use vstd::prelude::*;
use crate::cursor::be16_at;
use crate::loaded::{LoadedAsset, LoadedPart};
use crate::parts::GamePart;
use crate::resource::{ResourceRegistry, NUM_MEM_ENTRIES};
use crate::video::Video;

verus! {

/// Everything the bytecode works on besides the machine's own state.
pub struct ExecutionContext {
    pub loaded_part: LoadedPart,
    pub loaded_asset: LoadedAsset,
    /// A part change staged by the bytecode for the next frame boundary.
    pub part_to_load: Option<GamePart>,
    pub resource: ResourceRegistry,
    pub video: Video,
}

impl ExecutionContext {
    pub open spec fn wf(&self) -> bool {
        &&& self.video.wf()
        &&& self.resource.mem_list@.len() >= NUM_MEM_ENTRIES
    }

    /// The bytecode segment.
    pub open spec fn code(&self) -> Seq<u8> {
        self.loaded_part.bytecode.data@
    }

    /// The bytecode cursor's position: the running channel's counter.
    pub open spec fn pc(&self) -> int {
        self.loaded_part.bytecode.pos as int
    }

    /// `n` more bytes of bytecode can be read.
    pub open spec fn can_fetch(&self, n: int) -> bool {
        self.loaded_part.bytecode.can_read(n)
    }

    /// The bytecode byte `k` places past the counter.
    pub open spec fn op_byte(&self, k: int) -> u8 {
        self.code()[self.pc() + k]
    }

    /// The big-endian bytecode word `k` places past the counter.
    pub open spec fn op_word(&self, k: int) -> u16 {
        be16_at(self.code(), self.pc() + k)
    }

    /// `self` is `old` with the bytecode counter moved and nothing else changed.
    pub open spec fn only_pc_moved(&self, old: &ExecutionContext) -> bool {
        &&& self.code() == old.code()
        &&& self.loaded_part.palette == old.loaded_part.palette
        &&& self.loaded_part.cinematic == old.loaded_part.cinematic
        &&& self.loaded_part.polygon == old.loaded_part.polygon
        &&& self.loaded_asset.assets@ == old.loaded_asset.assets@
        &&& self.part_to_load == old.part_to_load
        &&& self.resource.mem_list@ == old.resource.mem_list@
        &&& self.resource.banks@ == old.resource.banks@
        &&& self.video.pages@ == old.video.pages@
        &&& self.video.same_but_pages(&old.video)
    }

    pub fn new(
        loaded_part: LoadedPart,
        loaded_asset: LoadedAsset,
        part_to_load: Option<GamePart>,
        resource: ResourceRegistry,
        video: Video,
    ) -> (r: ExecutionContext)
        ensures
            r.loaded_part == loaded_part,
            r.loaded_asset == loaded_asset,
            r.part_to_load == part_to_load,
            r.resource == resource,
            r.video == video,
    {
        ExecutionContext { loaded_part, loaded_asset, part_to_load, resource, video }
    }
}

} // verus!
