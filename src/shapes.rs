//! Points and leaf polygon records.

use vstd::prelude::*;
use crate::cursor::{ByteCursor, ReadError};

verus! {

/// A polygon has fewer vertices than this.
pub const MAX_POINTS: usize = 64;

#[derive(Debug, PartialEq, Eq, Structural, Clone, Copy)]
pub struct Point {
    pub x: i16,
    pub y: i16,
}

#[derive(Debug, PartialEq, Eq, Structural, Clone, Copy)]
pub enum ShapeError {
    Io(ReadError),
    /// The vertex count is odd, or not below the maximum.
    InvalidPointCount(u8),
}

#[derive(Debug)]
pub struct Polygon {
    pub bbw: i16,
    pub bbh: i16,
    pub points: Vec<Point>,
}

/// A record byte scaled by `zoom / 64`, kept to 16 bits.
pub open spec fn scale(b: u8, zoom: u16) -> i16 {
    ((b as int * zoom as int) / 64) as i16
}

pub fn scale_byte(b: u8, zoom: u16) -> (r: i16)
    ensures
        r == scale(b, zoom),
{
    assert(b as i32 * zoom as i32 <= 255 * 65535) by (nonlinear_arith)
        requires
            b <= 255,
            zoom <= 65535,
    ;
    #[verifier::truncate]
    ((b as i32 * zoom as i32 / 64) as i16)
}

/// A leaf polygon record as read: bounding box and vertices.
pub struct PolygonView {
    pub bbw: i16,
    pub bbh: i16,
    pub points: Seq<Point>,
}

/// What reading the leaf record body at `p` in `s` gives.
pub open spec fn vertices_at(s: Seq<u8>, p: int, zoom: u16) -> Result<PolygonView, ShapeError> {
    if p + 3 > s.len() {
        Err(ShapeError::Io(ReadError::UnexpectedEof))
    } else if !valid_point_count(s[p + 2]) {
        Err(ShapeError::InvalidPointCount(s[p + 2]))
    } else if p + 3 + 2 * s[p + 2] > s.len() {
        Err(ShapeError::Io(ReadError::UnexpectedEof))
    } else {
        Ok(
            PolygonView {
                bbw: scale(s[p], zoom),
                bbh: scale(s[p + 1], zoom),
                points: Seq::new(
                    s[p + 2] as nat,
                    |i: int| Point { x: scale(s[p + 3 + 2 * i], zoom), y: scale(s[p + 4 + 2 * i], zoom) },
                ),
            },
        )
    }
}

/// Whether `n` vertices make a valid polygon record.
pub open spec fn valid_point_count(n: u8) -> bool {
    n % 2 == 0 && n < MAX_POINTS
}

impl Polygon {
    /// Reads a leaf record after its command byte: bounding box, vertex
    /// count, then the vertices, each byte scaled by `zoom / 64`.
    #[verifier::loop_isolation(false)]
    pub fn read_vertices(stream: &mut ByteCursor, zoom: u16) -> (r: Result<Polygon, ShapeError>)
        ensures
            final(stream).data@ == old(stream).data@,
            match vertices_at(old(stream).data@, old(stream).pos as int, zoom) {
                Ok(v) => r is Ok && r.unwrap().bbw == v.bbw && r.unwrap().bbh == v.bbh
                    && r.unwrap().points@ == v.points,
                Err(e) => r == Err::<Polygon, ShapeError>(e),
            },
            ({
                let s = old(stream).data@;
                let p = old(stream).pos as int;
                if !old(stream).can_read(3) {
                    r == Err::<Polygon, ShapeError>(ShapeError::Io(ReadError::UnexpectedEof))
                } else if !valid_point_count(s[p + 2]) {
                    r == Err::<Polygon, ShapeError>(ShapeError::InvalidPointCount(s[p + 2]))
                } else if !old(stream).can_read(3 + 2 * s[p + 2]) {
                    r == Err::<Polygon, ShapeError>(ShapeError::Io(ReadError::UnexpectedEof))
                } else {
                    &&& r is Ok
                    &&& final(stream).pos == p + 3 + 2 * s[p + 2]
                    &&& r.unwrap().bbw == scale(s[p], zoom)
                    &&& r.unwrap().bbh == scale(s[p + 1], zoom)
                    &&& r.unwrap().points@.len() == s[p + 2]
                    &&& forall|i: int|
                        0 <= i < s[p + 2] ==> #[trigger] r.unwrap().points@[i] == (Point {
                            x: scale(s[p + 3 + 2 * i], zoom),
                            y: scale(s[p + 4 + 2 * i], zoom),
                        })
                }
            }),
    {
        let ghost s = stream.data@;
        let ghost p = stream.pos as int;
        let bbw = match stream.read_u8() {
            Ok(b) => scale_byte(b, zoom),
            Err(e) => {
                return Err(ShapeError::Io(e));
            },
        };
        let bbh = match stream.read_u8() {
            Ok(b) => scale_byte(b, zoom),
            Err(e) => {
                return Err(ShapeError::Io(e));
            },
        };
        let num_points = match stream.read_u8() {
            Ok(b) => b,
            Err(e) => {
                return Err(ShapeError::Io(e));
            },
        };
        if num_points % 2 != 0 || num_points as usize >= MAX_POINTS {
            return Err(ShapeError::InvalidPointCount(num_points));
        }
        let mut points: Vec<Point> = Vec::with_capacity(num_points as usize);
        let mut i: u8 = 0;
        while i < num_points
            invariant
                i <= num_points < 64,
                stream.data@ == s,
                s == old(stream).data@,
                p == old(stream).pos,
                s[p + 2] == num_points,
                stream.pos == p + 3 + 2 * i,
                stream.pos <= s.len(),
                points@.len() == i,
                forall|k: int|
                    0 <= k < i ==> #[trigger] points@[k] == (Point {
                        x: scale(s[p + 3 + 2 * k], zoom),
                        y: scale(s[p + 4 + 2 * k], zoom),
                    }),
            decreases num_points - i,
        {
            let x = match stream.read_u8() {
                Ok(b) => scale_byte(b, zoom),
                Err(e) => {
                    return Err(ShapeError::Io(e));
                },
            };
            let y = match stream.read_u8() {
                Ok(b) => scale_byte(b, zoom),
                Err(e) => {
                    return Err(ShapeError::Io(e));
                },
            };
            points.push(Point { x, y });
            i = i + 1;
        }
        assert(points@ =~= Seq::new(
            num_points as nat,
            |i: int| Point { x: scale(s[p + 3 + 2 * i], zoom), y: scale(s[p + 4 + 2 * i], zoom) },
        ));
        Ok(Polygon { bbw, bbh, points })
    }
}

} // verus!
