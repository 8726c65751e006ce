//! The segments of the running part and the resources loaded at run time.

use vstd::prelude::*;
use std::collections::HashMap;
use crate::cursor::ByteCursor;
use crate::parts::Segment;

verus! {

broadcast use vstd::std_specs::hash::group_hash_axioms;

#[derive(Debug, PartialEq, Eq, Structural, Clone, Copy)]
pub enum LoadedPartError {
    MissingSegment(Segment),
}

/// The blobs loaded for a part, one slot per segment.
pub struct SegmentData {
    pub palette: Option<Vec<u8>>,
    pub bytecode: Option<Vec<u8>>,
    pub cinematic: Option<Vec<u8>>,
    pub polygon: Option<Vec<u8>>,
}

/// The segments of the running part, each behind its own cursor.
pub struct LoadedPart {
    pub bytecode: ByteCursor,
    pub palette: ByteCursor,
    pub cinematic: ByteCursor,
    pub polygon: Option<ByteCursor>,
}

/// A cursor at the start of `data`, or none.
pub open spec fn cursor_at_start(c: ByteCursor, data: Seq<u8>) -> bool {
    c.data@ == data && c.pos == 0
}

impl LoadedPart {
    /// A part with every segment empty.
    pub fn empty() -> (r: LoadedPart)
        ensures
            r.bytecode.data@.len() == 0,
            r.palette.data@.len() == 0,
            r.cinematic.data@.len() == 0,
            r.polygon is None,
    {
        LoadedPart {
            bytecode: ByteCursor::empty(),
            palette: ByteCursor::empty(),
            cinematic: ByteCursor::empty(),
            polygon: None,
        }
    }

    /// Builds the part; the bytecode, palette and cinematic segments are
    /// required, in that order, and the polygon segment is optional.
    pub fn from(segment_data: SegmentData) -> (r: Result<LoadedPart, LoadedPartError>)
        ensures
            segment_data.bytecode is None ==> r == Err::<LoadedPart, LoadedPartError>(
                LoadedPartError::MissingSegment(Segment::Bytecode),
            ),
            segment_data.bytecode is Some && segment_data.palette is None ==> r == Err::<
                LoadedPart,
                LoadedPartError,
            >(LoadedPartError::MissingSegment(Segment::Palette)),
            segment_data.bytecode is Some && segment_data.palette is Some
                && segment_data.cinematic is None ==> r == Err::<LoadedPart, LoadedPartError>(
                LoadedPartError::MissingSegment(Segment::PolyCinematic),
            ),
            segment_data.bytecode is Some && segment_data.palette is Some
                && segment_data.cinematic is Some ==> r is Ok && {
                let p = r.unwrap();
                &&& cursor_at_start(p.bytecode, segment_data.bytecode.unwrap()@)
                &&& cursor_at_start(p.palette, segment_data.palette.unwrap()@)
                &&& cursor_at_start(p.cinematic, segment_data.cinematic.unwrap()@)
                &&& match segment_data.polygon {
                    None => p.polygon is None,
                    Some(v) => p.polygon is Some && cursor_at_start(p.polygon.unwrap(), v@),
                }
            },
    {
        let SegmentData { palette, bytecode, cinematic, polygon } = segment_data;
        let bytecode = match bytecode {
            Some(v) => v,
            None => {
                return Err(LoadedPartError::MissingSegment(Segment::Bytecode));
            },
        };
        let palette = match palette {
            Some(v) => v,
            None => {
                return Err(LoadedPartError::MissingSegment(Segment::Palette));
            },
        };
        let cinematic = match cinematic {
            Some(v) => v,
            None => {
                return Err(LoadedPartError::MissingSegment(Segment::PolyCinematic));
            },
        };
        let polygon = match polygon {
            Some(v) => Some(ByteCursor::new(v)),
            None => None,
        };
        Ok(LoadedPart {
            bytecode: ByteCursor::new(bytecode),
            palette: ByteCursor::new(palette),
            cinematic: ByteCursor::new(cinematic),
            polygon,
        })
    }
}

/// Resources loaded at run time by the bytecode, by resource-list index.
pub struct LoadedAsset {
    pub assets: HashMap<usize, Vec<u8>>,
}

impl LoadedAsset {
    pub fn new() -> (r: LoadedAsset)
        ensures
            r.assets@ == Map::<usize, Vec<u8>>::empty(),
    {
        LoadedAsset { assets: HashMap::new() }
    }

    /// Stores `data` under `index`, replacing what was there.
    pub fn insert(&mut self, index: usize, data: Vec<u8>)
        ensures
            final(self).assets@ == old(self).assets@.insert(index, data),
    {
        self.assets.insert(index, data);
    }
}

} // verus!
