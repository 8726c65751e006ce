//! Game parts, segments, and the table that binds them to resources.

use vstd::prelude::*;

verus! {

/// The four kinds of blob that make up a game part.
#[derive(Debug, PartialEq, Eq, Structural, Clone, Copy, Hash)]
pub enum Segment {
    Palette,
    Bytecode,
    PolyCinematic,
    Polygon,
}

/// The chapters of the game, numbered 0x3E80 to 0x3E89 in the bytecode.
#[derive(Debug, PartialEq, Eq, Structural, Clone, Copy)]
pub enum GamePart {
    One,
    Two,
    Tree,
    Four,
    Five,
    Six,
    Seven,
    Eigth,
    Nine,
    Ten,
}

/// The id of the first part.
pub const FIRST_PART_ID: u16 = 0x3E80;

/// How many parts there are.
pub const NUM_PARTS: usize = 10;

impl GamePart {
    /// The part's position, 0 for the first.
    pub open spec fn index_of(self) -> int {
        match self {
            GamePart::One => 0,
            GamePart::Two => 1,
            GamePart::Tree => 2,
            GamePart::Four => 3,
            GamePart::Five => 4,
            GamePart::Six => 5,
            GamePart::Seven => 6,
            GamePart::Eigth => 7,
            GamePart::Nine => 8,
            GamePart::Ten => 9,
        }
    }

    /// The part's id in the bytecode.
    pub open spec fn id_of(self) -> u16 {
        (FIRST_PART_ID + self.index_of()) as u16
    }

    pub fn index(self) -> (r: usize)
        ensures
            r == self.index_of(),
            r < NUM_PARTS,
    {
        match self {
            GamePart::One => 0,
            GamePart::Two => 1,
            GamePart::Tree => 2,
            GamePart::Four => 3,
            GamePart::Five => 4,
            GamePart::Six => 5,
            GamePart::Seven => 6,
            GamePart::Eigth => 7,
            GamePart::Nine => 8,
            GamePart::Ten => 9,
        }
    }

    pub fn id(self) -> (r: u16)
        ensures
            r == self.id_of(),
    {
        FIRST_PART_ID + self.index() as u16
    }

    /// The part whose id is `value`, if any.
    pub fn from_id(value: u16) -> (r: Option<GamePart>)
        ensures
            match r {
                Some(p) => p.id_of() == value,
                None => forall|p: GamePart| p.id_of() != value,
            },
    {
        match value {
            0x3E80 => Some(GamePart::One),
            0x3E81 => Some(GamePart::Two),
            0x3E82 => Some(GamePart::Tree),
            0x3E83 => Some(GamePart::Four),
            0x3E84 => Some(GamePart::Five),
            0x3E85 => Some(GamePart::Six),
            0x3E86 => Some(GamePart::Seven),
            0x3E87 => Some(GamePart::Eigth),
            0x3E88 => Some(GamePart::Nine),
            0x3E89 => Some(GamePart::Ten),
            _ => None,
        }
    }
}

impl Segment {
    /// The segment's column in the part table.
    pub open spec fn index_of(self) -> int {
        match self {
            Segment::Palette => 0,
            Segment::Bytecode => 1,
            Segment::PolyCinematic => 2,
            Segment::Polygon => 3,
        }
    }
}

/// The resource-list index of each segment of each part; 0 means absent.
pub open spec fn segment_table(part: int, seg: int) -> usize {
    let row: Seq<usize> = if part == 0 {
        seq![0x14, 0x15, 0x16, 0x00]
    } else if part == 1 {
        seq![0x17, 0x18, 0x19, 0x00]
    } else if part == 2 {
        seq![0x1A, 0x1B, 0x1C, 0x11]
    } else if part == 3 {
        seq![0x1D, 0x1E, 0x1F, 0x11]
    } else if part == 4 {
        seq![0x20, 0x21, 0x22, 0x11]
    } else if part == 5 {
        seq![0x23, 0x24, 0x25, 0x00]
    } else if part == 6 {
        seq![0x26, 0x27, 0x28, 0x11]
    } else if part == 7 {
        seq![0x29, 0x2A, 0x2B, 0x11]
    } else {
        seq![0x7D, 0x7E, 0x7F, 0x00]
    };
    row[seg]
}

/// The resource-list index of `segment` in `part`, 0 where the part has none.
pub fn segment_index(part: GamePart, segment: Segment) -> (r: usize)
    ensures
        r == segment_table(part.index_of(), segment.index_of()),
        r < 0x80,
{
    let row: [usize; 4] = match part {
        GamePart::One => [0x14, 0x15, 0x16, 0x00],
        GamePart::Two => [0x17, 0x18, 0x19, 0x00],
        GamePart::Tree => [0x1A, 0x1B, 0x1C, 0x11],
        GamePart::Four => [0x1D, 0x1E, 0x1F, 0x11],
        GamePart::Five => [0x20, 0x21, 0x22, 0x11],
        GamePart::Six => [0x23, 0x24, 0x25, 0x00],
        GamePart::Seven => [0x26, 0x27, 0x28, 0x11],
        GamePart::Eigth => [0x29, 0x2A, 0x2B, 0x11],
        GamePart::Nine => [0x7D, 0x7E, 0x7F, 0x00],
        GamePart::Ten => [0x7D, 0x7E, 0x7F, 0x00],
    };
    match segment {
        Segment::Palette => row[0],
        Segment::Bytecode => row[1],
        Segment::PolyCinematic => row[2],
        Segment::Polygon => row[3],
    }
}

} // verus!
