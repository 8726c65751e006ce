//! The resource registry: the resource list and the bank contents.

use vstd::prelude::*;
use crate::bank::{bank_read, bank_view, BankError, BankReader};
use crate::cursor::ByteCursor;
use crate::loaded::{cursor_at_start, LoadedPart, LoadedPartError, SegmentData};
use crate::mem_entry::{mem_entry_at, MemEntry, MemEntryError, MEM_ENTRY_SIZE};
use crate::parts::{segment_index, segment_table, GamePart, Segment};
use crate::cursor::ReadError;

verus! {

/// How many records the resource list holds.
pub const NUM_MEM_ENTRIES: usize = 146;

#[derive(Debug, PartialEq, Eq, Structural, Clone, Copy)]
pub enum ResourceError {
    /// The resource list could not be read.
    MemListOpen,
    BankError(BankError),
    MemEntryError(MemEntryError),
    LoadedPartError(LoadedPartError),
}

/// The resource list and the bank files it points into.
pub struct ResourceRegistry {
    /// Contents of each bank file by bank id; `None` where the file is missing.
    pub banks: Vec<Option<Vec<u8>>>,
    pub mem_list: Vec<MemEntry>,
}

/// The blobs of a part's segments, as loading them gives them.
pub struct PartBlobs {
    pub palette: Seq<u8>,
    pub bytecode: Seq<u8>,
    pub cinematic: Seq<u8>,
    pub polygon: Option<Seq<u8>>,
}

impl ResourceRegistry {
    /// The contents of bank `id`, if its file is there.
    pub open spec fn bank(&self, id: u8) -> Option<Seq<u8>> {
        if (id as int) < self.banks@.len() {
            bank_view(self.banks@[id as int])
        } else {
            None
        }
    }

    /// What loading resource `index` gives.
    #[verifier::opaque]
    pub open spec fn entry_load(&self, index: int) -> Result<Seq<u8>, ResourceError> {
        let e = self.mem_list@[index];
        match bank_read(self.bank(e.bank_id), e) {
            Ok(v) => Ok(v),
            Err(err) => Err(ResourceError::BankError(err)),
        }
    }

    /// What loading the segments of `part` gives: the first failure in the
    /// order palette, bytecode, cinematic, polygon, else every blob.
    pub open spec fn part_load(&self, part: GamePart) -> Result<PartBlobs, ResourceError> {
        let p = part.index_of();
        let poly = segment_table(p, 3);
        match self.entry_load(segment_table(p, 0) as int) {
            Err(e) => Err(e),
            Ok(palette) => match self.entry_load(segment_table(p, 1) as int) {
                Err(e) => Err(e),
                Ok(bytecode) => match self.entry_load(segment_table(p, 2) as int) {
                    Err(e) => Err(e),
                    Ok(cinematic) => if poly == 0 {
                        Ok(PartBlobs { palette, bytecode, cinematic, polygon: None })
                    } else {
                        match self.entry_load(poly as int) {
                            Err(e) => Err(e),
                            Ok(polygon) => Ok(PartBlobs { palette, bytecode, cinematic, polygon: Some(polygon) }),
                        }
                    },
                },
            },
        }
    }

    /// A registry over the given bank files, with an empty resource list.
    pub fn new(banks: Vec<Option<Vec<u8>>>) -> (r: ResourceRegistry)
        ensures
            r.banks@ == banks@,
            r.mem_list@.len() == 0,
    {
        ResourceRegistry { banks, mem_list: Vec::new() }
    }

    /// Appends the 146 records of the resource list `memlist`.
    pub fn read_entries(&mut self, memlist: Vec<u8>) -> (r: Result<(), ResourceError>)
        ensures
            final(self).banks@ == old(self).banks@,
            memlist@.len() >= NUM_MEM_ENTRIES * MEM_ENTRY_SIZE ==> r is Ok
                && final(self).mem_list@.len() == old(self).mem_list@.len() + NUM_MEM_ENTRIES
                && final(self).mem_list@.subrange(0, old(self).mem_list@.len() as int)
                == old(self).mem_list@
                && forall|i: int|
                0 <= i < NUM_MEM_ENTRIES ==> #[trigger] final(self).mem_list@[old(
                    self,
                ).mem_list@.len() + i] == mem_entry_at(memlist@, i * 20),
            memlist@.len() < NUM_MEM_ENTRIES * MEM_ENTRY_SIZE ==> r == Err::<(), ResourceError>(
                ResourceError::MemEntryError(MemEntryError::Io(ReadError::UnexpectedEof)),
            ),
    {
        let mut reader = ByteCursor::new(memlist);
        let ghost n0 = self.mem_list@.len();
        let mut i: usize = 0;
        while i < NUM_MEM_ENTRIES
            invariant
                i <= NUM_MEM_ENTRIES,
                reader.data@ == memlist@,
                reader.pos == i * 20,
                i * 20 <= memlist@.len(),
                self.banks@ == old(self).banks@,
                self.mem_list@.len() == n0 + i,
                self.mem_list@.subrange(0, n0 as int) == old(self).mem_list@,
                n0 == old(self).mem_list@.len(),
                forall|k: int| 0 <= k < i ==> #[trigger] self.mem_list@[n0 + k] == mem_entry_at(memlist@, k * 20),
            decreases NUM_MEM_ENTRIES - i,
        {
            let mem_entry = match MemEntry::from_reader(&mut reader) {
                Ok(e) => e,
                Err(e) => {
                    return Err(ResourceError::MemEntryError(e));
                },
            };
            let ghost before = self.mem_list@;
            self.mem_list.push(mem_entry);
            assert(self.mem_list@.subrange(0, n0 as int) =~= before.subrange(0, n0 as int));
            i = i + 1;
        }
        Ok(())
    }

    /// The unpacked payload of resource `index`.
    pub fn load_entry(&self, index: usize) -> (r: Result<Vec<u8>, ResourceError>)
        requires
            index < self.mem_list@.len(),
        ensures
            match self.entry_load(index as int) {
                Ok(v) => r is Ok && r.unwrap()@ == v,
                Err(e) => r == Err::<Vec<u8>, ResourceError>(e),
            },
    {
        reveal(ResourceRegistry::entry_load);
        let entry = &self.mem_list[index];
        let bank_id = entry.bank_id as usize;
        let result = if bank_id < self.banks.len() {
            BankReader::read_bank(&self.banks[bank_id], entry)
        } else {
            BankReader::read_bank(&None, entry)
        };
        match result {
            Ok(v) => Ok(v),
            Err(e) => Err(ResourceError::BankError(e)),
        }
    }

    /// Loads the segments of `part`, each from the index the part table gives.
    pub fn setup_part(&self, game_part: GamePart) -> (r: Result<LoadedPart, ResourceError>)
        requires
            self.mem_list@.len() >= 0x80,
        ensures
            match self.part_load(game_part) {
                Err(e) => r == Err::<LoadedPart, ResourceError>(e),
                Ok(b) => r is Ok && {
                    let p = r.unwrap();
                    &&& cursor_at_start(p.palette, b.palette)
                    &&& cursor_at_start(p.bytecode, b.bytecode)
                    &&& cursor_at_start(p.cinematic, b.cinematic)
                    &&& match b.polygon {
                        None => p.polygon is None,
                        Some(v) => p.polygon is Some && cursor_at_start(p.polygon.unwrap(), v),
                    }
                },
            },
    {
        let palette = self.load_segment(game_part, Segment::Palette)?;
        let bytecode = self.load_segment(game_part, Segment::Bytecode)?;
        let cinematic = self.load_segment(game_part, Segment::PolyCinematic)?;
        let polygon = self.load_segment(game_part, Segment::Polygon)?;
        let segment_data = SegmentData { palette, bytecode, cinematic, polygon };
        match LoadedPart::from(segment_data) {
            Ok(p) => Ok(p),
            Err(e) => Err(ResourceError::LoadedPartError(e)),
        }
    }

    /// The blob of one segment of `part`; `None` where the part has none.
    fn load_segment(&self, part: GamePart, segment: Segment) -> (r: Result<Option<Vec<u8>>, ResourceError>)
        requires
            self.mem_list@.len() >= 0x80,
        ensures
            ({
                let idx = segment_table(part.index_of(), segment.index_of());
                if idx == 0 {
                    r == Ok::<Option<Vec<u8>>, ResourceError>(None)
                } else {
                    match self.entry_load(idx as int) {
                        Ok(v) => r is Ok && r.unwrap() is Some && r.unwrap().unwrap()@ == v,
                        Err(e) => r == Err::<Option<Vec<u8>>, ResourceError>(e),
                    }
                }
            }),
    {
        let idx = segment_index(part, segment);
        if idx == 0 {
            return Ok(None);
        }
        let data = self.load_entry(idx)?;
        Ok(Some(data))
    }
}

} // verus!
