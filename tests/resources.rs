use another_rusty_world::bank::{BankError, BankReader};
use another_rusty_world::cursor::{ByteCursor, ReadError};
use another_rusty_world::loaded::{LoadedPart, LoadedPartError, SegmentData};
use another_rusty_world::mem_entry::{MemEntry, MemEntryError};
use another_rusty_world::parts::{segment_index, GamePart, Segment};
use another_rusty_world::resource::{ResourceError, ResourceRegistry};

fn record(bank_id: u8, offset: u32, packed: u16, size: u16) -> Vec<u8> {
    let mut r = vec![0u8; 7];
    r.push(bank_id);
    r.extend_from_slice(&offset.to_be_bytes());
    r.extend_from_slice(&[0, 0]);
    r.extend_from_slice(&packed.to_be_bytes());
    r.extend_from_slice(&[0, 0]);
    r.extend_from_slice(&size.to_be_bytes());
    r
}

/// A packed blob holding one literal byte: header words, then a bit word
/// whose bits (least significant first) are 0 0 | 000 | the byte, capped by
/// a marker bit.
fn packed_single_byte(byte: u8) -> Vec<u8> {
    let mut chk: u32 = 0;
    for i in 0..8 {
        let bit = (byte >> (7 - i)) & 1;
        chk |= (bit as u32) << (5 + i);
    }
    chk |= 1 << 13;
    let mut packed = Vec::new();
    packed.extend_from_slice(&chk.to_be_bytes());
    packed.extend_from_slice(&0x1234_5678u32.to_be_bytes());
    packed.extend_from_slice(&1u32.to_be_bytes());
    packed
}

#[test]
fn mem_entry_parse() {
    let bytes = vec![
        0x00, 0x00, 0x00, 0x00, 0x00, 0x00, 0x00, 0x05, 0x00, 0x00, 0x12, 0x34, 0x00, 0x00,
        0x00, 0x07, 0x00, 0x00, 0x00, 0x0A,
    ];
    let mut cursor = ByteCursor::new(bytes);
    let entry = MemEntry::from_reader(&mut cursor).unwrap();
    assert_eq!(entry.bank_id, 5);
    assert_eq!(entry.bank_offset, 0x1234);
    assert_eq!(entry.packed_size, 7);
    assert_eq!(entry.size, 0x0A);
    assert_eq!(cursor.position(), 20);
}

#[test]
fn mem_entry_short_record() {
    let mut cursor = ByteCursor::new(vec![0u8; 19]);
    assert_eq!(
        MemEntry::from_reader(&mut cursor),
        Err(MemEntryError::Io(ReadError::UnexpectedEof))
    );
}

#[test]
fn no_decompression_pass_through() {
    let mut bank = vec![0u8; 16];
    bank[8..12].copy_from_slice(&[0xDE, 0xAD, 0xBE, 0xEF]);
    let entry = MemEntry { bank_id: 3, bank_offset: 8, packed_size: 4, size: 4 };
    let out = BankReader::read_bank(&Some(bank), &entry).unwrap();
    assert_eq!(out, vec![0xDE, 0xAD, 0xBE, 0xEF]);
}

#[test]
fn bank_missing_file() {
    let entry = MemEntry { bank_id: 3, bank_offset: 0, packed_size: 4, size: 4 };
    assert_eq!(BankReader::read_bank(&None, &entry), Err(BankError::OnOpen));
}

#[test]
fn bank_short_read() {
    let entry = MemEntry { bank_id: 3, bank_offset: 14, packed_size: 4, size: 4 };
    assert_eq!(
        BankReader::read_bank(&Some(vec![0u8; 16]), &entry),
        Err(BankError::Io(ReadError::UnexpectedEof))
    );
}

#[test]
fn bank_file_names() {
    assert_eq!(BankReader::bank_file_name(0x0d), b"bank0d".to_vec());
    assert_eq!(BankReader::bank_file_name(0x01), b"bank01".to_vec());
    assert_eq!(BankReader::bank_file_name(0xA0), b"banka0".to_vec());
}

#[test]
fn unpack_single_literal() {
    let packed = packed_single_byte(0xAB);
    let entry = MemEntry { bank_id: 0, bank_offset: 0, packed_size: 12, size: 1 };
    let out = BankReader::read_bank(&Some(packed), &entry).unwrap();
    assert_eq!(out, vec![0xAB]);
}

#[test]
fn unpack_output_has_declared_length() {
    for byte in [0x00u8, 0x01, 0x7F, 0x80, 0xFF] {
        let packed = packed_single_byte(byte);
        let entry = MemEntry { bank_id: 0, bank_offset: 0, packed_size: 12, size: 1 };
        let out = BankReader::read_bank(&Some(packed), &entry).unwrap();
        assert_eq!(out.len(), 1);
        assert_eq!(out[0], byte);
    }
}

#[test]
fn unpack_reference_copies_back() {
    // Two literal bytes 0x11 0x22, then a 2-byte reference at offset 2:
    // the reversed output holds the pair twice.
    let mut bits: Vec<u8> = vec![0, 0, 0, 0, 1];
    for byte in [0x11u8, 0x22] {
        for i in 0..8 {
            bits.push((byte >> (7 - i)) & 1);
        }
    }
    bits.extend_from_slice(&[0, 1]);
    for i in 0..8 {
        bits.push((2u8 >> (7 - i)) & 1);
    }
    let mut chk: u32 = 0;
    for (i, b) in bits.iter().enumerate() {
        chk |= (*b as u32) << i;
    }
    chk |= 1 << bits.len();
    let mut packed = Vec::new();
    packed.extend_from_slice(&chk.to_be_bytes());
    packed.extend_from_slice(&0u32.to_be_bytes());
    packed.extend_from_slice(&4u32.to_be_bytes());
    let entry = MemEntry { bank_id: 0, bank_offset: 0, packed_size: 12, size: 4 };
    let out = BankReader::read_bank(&Some(packed), &entry).unwrap();
    assert_eq!(out, vec![0x22, 0x11, 0x22, 0x11]);
}

#[test]
fn unpack_truncated_stream() {
    let packed = vec![0u8, 0, 0, 0, 0, 0, 0, 9];
    let entry = MemEntry { bank_id: 0, bank_offset: 0, packed_size: 8, size: 9 };
    assert_eq!(
        BankReader::read_bank(&Some(packed), &entry),
        Err(BankError::Io(ReadError::UnexpectedEof))
    );
}

#[test]
fn part_table_indices() {
    assert_eq!(segment_index(GamePart::One, Segment::Palette), 0x14);
    assert_eq!(segment_index(GamePart::Tree, Segment::Polygon), 0x11);
    assert_eq!(segment_index(GamePart::Two, Segment::Polygon), 0);
    assert_eq!(segment_index(GamePart::Ten, Segment::PolyCinematic), 0x7F);
    assert_eq!(GamePart::from_id(0x3E81), Some(GamePart::Two));
    assert_eq!(GamePart::from_id(0x3E8A), None);
    assert_eq!(GamePart::Ten.id(), 0x3E89);
}

#[test]
fn loaded_part_requires_segments() {
    let data = SegmentData { palette: Some(vec![1]), bytecode: None, cinematic: Some(vec![3]), polygon: None };
    assert_eq!(
        LoadedPart::from(data).err(),
        Some(LoadedPartError::MissingSegment(Segment::Bytecode))
    );
    let data = SegmentData { palette: None, bytecode: Some(vec![2]), cinematic: Some(vec![3]), polygon: None };
    assert_eq!(
        LoadedPart::from(data).err(),
        Some(LoadedPartError::MissingSegment(Segment::Palette))
    );
    let data = SegmentData { palette: Some(vec![1]), bytecode: Some(vec![2]), cinematic: None, polygon: None };
    assert_eq!(
        LoadedPart::from(data).err(),
        Some(LoadedPartError::MissingSegment(Segment::PolyCinematic))
    );
    let data = SegmentData { palette: Some(vec![1]), bytecode: Some(vec![2]), cinematic: Some(vec![3]), polygon: None };
    let part = LoadedPart::from(data).unwrap();
    assert_eq!(part.palette.get_ref(), &vec![1]);
    assert_eq!(part.bytecode.get_ref(), &vec![2]);
    assert_eq!(part.cinematic.get_ref(), &vec![3]);
    assert!(part.polygon.is_none());
}

/// A registry whose part One segments sit unpacked in bank 1.
fn registry() -> ResourceRegistry {
    let mut memlist = Vec::new();
    for i in 0..146usize {
        let r = match i {
            0x14 => record(1, 0, 2, 2),
            0x15 => record(1, 2, 3, 3),
            0x16 => record(1, 5, 1, 1),
            0x17 | 0x30 => record(9, 0, 1, 1),
            _ => record(0, 0, 0, 0),
        };
        memlist.extend(r);
    }
    let banks = vec![Some(vec![]), Some(vec![10, 11, 20, 21, 22, 30])];
    let mut registry = ResourceRegistry::new(banks);
    registry.read_entries(memlist).unwrap();
    registry
}

#[test]
fn registry_reads_entries() {
    let r = registry();
    assert_eq!(r.mem_list.len(), 146);
    assert_eq!(r.mem_list[0x15], MemEntry { bank_id: 1, bank_offset: 2, packed_size: 3, size: 3 });
}

#[test]
fn registry_short_memlist() {
    let mut r = ResourceRegistry::new(vec![]);
    assert_eq!(
        r.read_entries(vec![0u8; 145 * 20]),
        Err(ResourceError::MemEntryError(MemEntryError::Io(ReadError::UnexpectedEof)))
    );
}

#[test]
fn registry_load_entry() {
    let r = registry();
    assert_eq!(r.load_entry(0x15).unwrap(), vec![20, 21, 22]);
    assert_eq!(r.load_entry(0x30), Err(ResourceError::BankError(BankError::OnOpen)));
}

#[test]
fn registry_setup_part() {
    let r = registry();
    let part = r.setup_part(GamePart::One).unwrap();
    assert_eq!(part.palette.get_ref(), &vec![10, 11]);
    assert_eq!(part.bytecode.get_ref(), &vec![20, 21, 22]);
    assert_eq!(part.cinematic.get_ref(), &vec![30]);
    assert!(part.polygon.is_none());
    assert_eq!(part.bytecode.position(), 0);
}

#[test]
fn registry_setup_part_missing_bank() {
    let r = registry();
    // Part Two's palette entry names bank 9, which has no file.
    assert_eq!(r.setup_part(GamePart::Two).err(), Some(ResourceError::BankError(BankError::OnOpen)));
    // Part Three has a polygon segment.
    let part = r.setup_part(GamePart::Tree).unwrap();
    assert_eq!(part.polygon.map(|p| p.data), Some(vec![]));
}
