//! Records of the resource list: where each resource lies in the banks.

use vstd::prelude::*;
use crate::cursor::{be16_at, be32_at, ByteCursor, ReadError};

verus! {

/// Bytes in one record of the resource list.
pub const MEM_ENTRY_SIZE: usize = 20;

#[derive(Debug, PartialEq, Eq, Structural, Clone, Copy)]
pub enum MemEntryError {
    Io(ReadError),
    InvalidState(u8),
    InvalidType(u8),
}

/// Where a resource lies in the bank files, and how large it is.
#[derive(Debug, PartialEq, Eq, Structural, Clone, Copy)]
pub struct MemEntry {
    pub bank_id: u8,
    pub bank_offset: u32,
    pub packed_size: u16,
    pub size: u16,
}

/// The entry that the 20-byte record at `at` in `s` describes.
pub open spec fn mem_entry_at(s: Seq<u8>, at: int) -> MemEntry {
    MemEntry {
        bank_id: s[at + 7],
        bank_offset: be32_at(s, at + 8),
        packed_size: be16_at(s, at + 14),
        size: be16_at(s, at + 18),
    }
}

impl MemEntry {
    /// Reads one record: reserved fields are read and dropped.
    pub fn from_reader(reader: &mut ByteCursor) -> (r: Result<MemEntry, MemEntryError>)
        ensures
            final(reader).data@ == old(reader).data@,
            old(reader).can_read(20) ==> r == Ok::<MemEntry, MemEntryError>(
                mem_entry_at(old(reader).data@, old(reader).pos as int),
            ) && final(reader).pos == old(reader).pos + 20,
            !old(reader).can_read(20) ==> r == Err::<MemEntry, MemEntryError>(
                MemEntryError::Io(ReadError::UnexpectedEof),
            ),
    {
        match MemEntry::read_fields(reader) {
            Ok(e) => Ok(e),
            Err(e) => Err(MemEntryError::Io(e)),
        }
    }

    fn read_fields(reader: &mut ByteCursor) -> (r: Result<MemEntry, ReadError>)
        ensures
            final(reader).data@ == old(reader).data@,
            old(reader).can_read(20) ==> r == Ok::<MemEntry, ReadError>(
                mem_entry_at(old(reader).data@, old(reader).pos as int),
            ) && final(reader).pos == old(reader).pos + 20,
            !old(reader).can_read(20) ==> r == Err::<MemEntry, ReadError>(ReadError::UnexpectedEof),
    {
        reader.read_u8()?;
        reader.read_u8()?;
        reader.read_u16()?;
        reader.read_u16()?;
        reader.read_u8()?;
        let bank_id = reader.read_u8()?;
        let bank_offset = reader.read_u32()?;
        reader.read_u16()?;
        let packed_size = reader.read_u16()?;
        reader.read_u16()?;
        let size = reader.read_u16()?;
        Ok(MemEntry { bank_id, bank_offset, packed_size, size })
    }
}

} // verus!
