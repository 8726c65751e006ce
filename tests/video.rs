use another_rusty_world::cursor::{ByteCursor, ReadError};
use another_rusty_world::renderer::{Renderer, RendererError};
use another_rusty_world::shapes::{Point, Polygon, ShapeError};
use another_rusty_world::video::{PageId, PaletteRequest, Video, VideoError};

fn video() -> Video {
    Video::new(Renderer::new())
}

fn palette_bytes(first: [u8; 2]) -> Vec<u8> {
    let mut v = vec![first[0], first[1]];
    v.extend(std::iter::repeat(0u8).take(30));
    v
}

#[test]
fn palette_expansion() {
    let mut renderer = Renderer::new();
    let mut cursor = ByteCursor::new(palette_bytes([0x0F, 0xA5]));
    renderer.set_palette(&mut cursor).unwrap();
    assert_eq!(renderer.palette[0], 0x00FFAA55);
    assert_eq!(renderer.palette[1], 0);
    assert_eq!(cursor.position(), 32);
}

#[test]
fn palette_round_trip_every_entry() {
    let mut bytes = Vec::new();
    for i in 0..16u16 {
        let c = (i << 8) | ((15 - i) << 4) | (i / 2);
        bytes.extend_from_slice(&c.to_be_bytes());
    }
    let mut renderer = Renderer::new();
    renderer.set_palette(&mut ByteCursor::new(bytes)).unwrap();
    for i in 0..16u32 {
        let (r, g, b) = (i, 15 - i, i / 2);
        assert_eq!(renderer.palette[i as usize], (r * 17) << 16 | (g * 17) << 8 | (b * 17));
    }
}

#[test]
fn palette_short_segment() {
    let mut renderer = Renderer::new();
    assert_eq!(
        renderer.set_palette(&mut ByteCursor::new(vec![0u8; 31])),
        Err(RendererError::Io(ReadError::UnexpectedEof))
    );
}

#[test]
fn page_swap() {
    let mut v = video();
    assert_eq!((v.front_buffer, v.back_buffer), (2, 1));
    let mut palette = ByteCursor::new(vec![]);
    v.update_display(PageId::from(0xFF), &mut palette).unwrap();
    assert_eq!((v.front_buffer, v.back_buffer), (1, 2));
}

#[test]
fn page_ids() {
    assert_eq!(PageId::from(0), PageId::Numbered(0));
    assert_eq!(PageId::from(3), PageId::Numbered(3));
    assert_eq!(PageId::from(4), PageId::Numbered(0));
    assert_eq!(PageId::from(0xFE), PageId::Front);
    assert_eq!(PageId::from(0xFF), PageId::Back);
}

#[test]
fn display_numbered_page_and_palette() {
    let mut v = video();
    v.request_palette(PaletteRequest::Change(1));
    let mut seg = vec![0u8; 64];
    seg[32] = 0x0F;
    seg[33] = 0x00;
    let mut palette = ByteCursor::new(seg);
    v.update_display(PageId::Numbered(3), &mut palette).unwrap();
    assert_eq!(v.front_buffer, 3);
    assert_eq!(v.back_buffer, 1);
    assert_eq!(v.palette_req, PaletteRequest::Keep);
    assert_eq!(v.renderer.palette[0], 0x00FF0000);
}

#[test]
fn display_invalid_palette() {
    let mut v = video();
    v.request_palette(PaletteRequest::Change(32));
    let mut palette = ByteCursor::new(vec![0u8; 2048]);
    assert_eq!(
        v.update_display(PageId::Front, &mut palette),
        Err(VideoError::InvalidPalette(32))
    );
}

#[test]
fn fill_page_then_read() {
    let mut v = video();
    v.fill_page(PageId::Numbered(1), 5);
    for offset in [0usize, 1, 159, 160, 16000, 31999] {
        assert_eq!(v.read_byte(1, offset), 0x55);
        assert_eq!(v.read_byte(0, offset), 0);
    }
    v.fill_page(PageId::Front, 0xA);
    assert!(v.page_bytes(2).iter().all(|b| *b == 0xAA));
}

#[test]
fn copy_page_same_is_noop() {
    let mut v = video();
    v.fill_page(PageId::Numbered(1), 3);
    let before: Vec<Vec<u8>> = (0..4).map(|p| v.page_bytes(p)).collect();
    v.copy_page(PageId::Numbered(1), PageId::Numbered(1), 0);
    v.copy_page(PageId::Back, PageId::Back, 0);
    let after: Vec<Vec<u8>> = (0..4).map(|p| v.page_bytes(p)).collect();
    assert_eq!(before, after);
}

#[test]
fn copy_page_full_and_scrolled() {
    let mut v = video();
    v.fill_page(PageId::Numbered(1), 7);
    v.copy_page(PageId::Numbered(1), PageId::Numbered(3), 0);
    assert!(v.page_bytes(3).iter().all(|b| *b == 0x77));
    // Scroll marker: 200 - 10 bytes move down by 10.
    v.copy_page(PageId::Numbered(0x81), PageId::Numbered(0), 10);
    let page0 = v.page_bytes(0);
    assert!(page0[..10].iter().all(|b| *b == 0));
    assert!(page0[10..200].iter().all(|b| *b == 0x77));
    assert!(page0[200..].iter().all(|b| *b == 0));
}

#[test]
fn draw_point_boundaries() {
    for x in [-1i16, 0, 319, 320] {
        for y in [-1i16, 0, 199, 200] {
            let mut v = video();
            v.draw_point(x, y, 0xC);
            let page = v.page_bytes(2);
            let on_screen = (0..=319).contains(&x) && (0..=199).contains(&y);
            let changed: Vec<usize> = (0..32000).filter(|i| page[*i] != 0).collect();
            if on_screen {
                let offset = y as usize * 160 + x as usize / 2;
                assert_eq!(changed, vec![offset]);
                let expected = if x % 2 == 0 { 0xC0 } else { 0x0C };
                assert_eq!(page[offset], expected);
            } else {
                assert!(changed.is_empty());
            }
        }
    }
}

#[test]
fn draw_point_blend_and_background() {
    let mut v = video();
    v.fill_page(PageId::Numbered(0), 0x3);
    v.fill_page(PageId::Numbered(2), 0x1);
    v.draw_point(4, 0, 0x10);
    assert_eq!(v.read_byte(2, 2), 0x91);
    v.draw_point(5, 0, 0x11);
    assert_eq!(v.read_byte(2, 2), 0x93);
}

#[test]
fn polygon_single_point() {
    let mut v = video();
    let polygon = Polygon { bbw: 0, bbh: 1, points: vec![Point { x: 0, y: 0 }; 4] };
    v.fill_polygon(0x7, Point { x: 11, y: 20 }, polygon);
    let page = v.page_bytes(2);
    let changed: Vec<usize> = (0..32000).filter(|i| page[*i] != 0).collect();
    assert_eq!(changed, vec![20 * 160 + 11 / 2]);
    assert_eq!(page[20 * 160 + 5], 0x07);
}

#[test]
fn polygon_fills_rectangle() {
    let mut v = video();
    // A 4x4 square: right edge down points 0 -> 1, left edge down 3 -> 2.
    let points = vec![
        Point { x: 4, y: 0 },
        Point { x: 4, y: 4 },
        Point { x: 0, y: 4 },
        Point { x: 0, y: 0 },
    ];
    let polygon = Polygon { bbw: 4, bbh: 4, points };
    v.fill_polygon(0x5, Point { x: 12, y: 12 }, polygon);
    let page = v.page_bytes(2);
    for y in 0..200usize {
        for xb in 0..160usize {
            // Columns 10 to 14: bytes 5 and 6 whole, the even pixel of byte 7.
            let expected = if !(10..14).contains(&y) {
                0
            } else if xb == 5 || xb == 6 {
                0x55
            } else if xb == 7 {
                0x50
            } else {
                0
            };
            assert_eq!(page[y * 160 + xb], expected, "row {y} byte {xb}");
        }
    }
}

#[test]
fn polygon_record_leaf() {
    let mut v = video();
    // Leaf with colour from the command (0xC0 | 9), no box, 4 points at 0.
    let mut stream = ByteCursor::new(vec![0xC9, 0, 1, 4, 0, 0, 0, 0, 0, 0, 0, 0]);
    v.read_and_draw_polygon(&mut stream, 0xFF, 0x40, Point { x: 2, y: 3 }).unwrap();
    assert_eq!(v.read_byte(2, 3 * 160 + 1), 0x90);
}

#[test]
fn polygon_record_hierarchy() {
    let mut v = video();
    // Hierarchy at 0: no offset, one child at word 4 (byte 8) moved by (1, 1).
    let mut data = vec![0x02, 0, 0, 0, 0x00, 0x04, 1, 1];
    data.extend_from_slice(&[0xC6, 0, 1, 4, 0, 0, 0, 0, 0, 0, 0, 0]);
    let mut stream = ByteCursor::new(data);
    v.read_and_draw_polygon(&mut stream, 0xFF, 0x40, Point { x: 10, y: 10 }).unwrap();
    assert_eq!(v.read_byte(2, 11 * 160 + 5), 0x06);
    assert_eq!(stream.position(), 8);
}

#[test]
fn polygon_record_errors() {
    let mut v = video();
    let mut stream = ByteCursor::new(vec![0x05]);
    assert_eq!(
        v.read_and_draw_polygon(&mut stream, 0xFF, 0x40, Point { x: 0, y: 0 }),
        Err(VideoError::UnexpectedCommand)
    );
    let mut stream = ByteCursor::new(vec![0xC0, 0, 0, 3]);
    assert_eq!(
        v.read_and_draw_polygon(&mut stream, 0xFF, 0x40, Point { x: 0, y: 0 }),
        Err(VideoError::InvalidPointCount(3))
    );
    let mut stream = ByteCursor::new(vec![]);
    assert_eq!(
        v.read_and_draw_polygon(&mut stream, 0xFF, 0x40, Point { x: 0, y: 0 }),
        Err(VideoError::Io(ReadError::UnexpectedEof))
    );
    // A hierarchy whose child is itself never ends on its own.
    let mut stream = ByteCursor::new(vec![0x02, 0, 0, 0, 0x00, 0x00, 0, 0]);
    assert_eq!(
        v.read_and_draw_polygon(&mut stream, 0xFF, 0x40, Point { x: 0, y: 0 }),
        Err(VideoError::HierarchyTooDeep)
    );
}

#[test]
fn read_vertices_scales() {
    let mut stream = ByteCursor::new(vec![10, 20, 2, 1, 2, 3, 4]);
    let p = Polygon::read_vertices(&mut stream, 0x80).unwrap();
    assert_eq!((p.bbw, p.bbh), (20, 40));
    assert_eq!(p.points, vec![Point { x: 2, y: 4 }, Point { x: 6, y: 8 }]);
    let mut stream = ByteCursor::new(vec![10, 20, 64]);
    assert_eq!(
        Polygon::read_vertices(&mut stream, 0x40).err(),
        Some(ShapeError::InvalidPointCount(64))
    );
}

#[test]
fn background_planes_decode() {
    let mut v = video();
    let mut src = vec![0u8; 32000];
    src[0] = 0x80; // plane 0, first pixel
    src[8000 * 3] = 0x40; // plane 3, second pixel
    src[8000 + 1] = 0x01; // plane 1, last pixel of the second byte
    v.copy_bg(&src).unwrap();
    let page0 = v.page_bytes(0);
    assert_eq!(page0[0], 0x18);
    assert_eq!(page0[7], 0x02);
    assert!(page0[1..7].iter().all(|b| *b == 0));
    assert_eq!(v.copy_bg(&vec![0u8; 100]), Err(VideoError::BackgroundTooShort));
}

#[test]
fn frame_scales_front_page() {
    let mut v = video();
    let mut palette = ByteCursor::new(palette_bytes([0x00, 0x00]));
    let mut seg = palette.data.clone();
    seg[2] = 0x01;
    seg[3] = 0x23;
    palette = ByteCursor::new(seg);
    v.request_palette(PaletteRequest::Change(0));
    v.update_display(PageId::Front, &mut palette).unwrap();
    v.draw_point(1, 0, 1);
    let frame = v.frame();
    assert_eq!(frame.len(), 960 * 600);
    for dy in 0..3 {
        for dx in 0..3 {
            assert_eq!(frame[dy * 960 + 3 + dx], 0x00112233);
            assert_eq!(frame[dy * 960 + dx], 0);
        }
    }
    assert_eq!(frame[3 * 960 + 3], 0);
}

#[test]
fn display_short_palette_segment() {
    let mut v = video();
    v.request_palette(PaletteRequest::Change(1));
    let mut palette = ByteCursor::new(vec![0u8; 40]);
    assert_eq!(
        v.update_display(PageId::Front, &mut palette),
        Err(VideoError::RendererError(RendererError::Io(ReadError::UnexpectedEof)))
    );
}

#[test]
fn polygon_single_point_stops_there() {
    let mut v = video();
    let points = vec![Point { x: 0, y: 0 }, Point { x: 0, y: 0 }, Point { x: 0, y: 1 }, Point { x: 0, y: 0 }];
    v.fill_polygon(0x1, Point { x: 0, y: 0 }, Polygon { bbw: 0, bbh: 1, points });
    let page = v.page_bytes(2);
    let changed: Vec<usize> = (0..32000).filter(|i| page[*i] != 0).collect();
    assert_eq!(changed, vec![0]);
    assert_eq!(page[0], 0x10);
}

#[test]
fn copy_page_out_of_range_source_is_page_zero() {
    let mut v = video();
    v.fill_page(PageId::Numbered(1), 0x6);
    // 0x41 has no scroll bit and lies outside 0..=3: it names page 0.
    v.copy_page(PageId::Numbered(0x41), PageId::Numbered(0), 0);
    assert!(v.page_bytes(0).iter().all(|b| *b == 0));
    v.copy_page(PageId::Numbered(0x42), PageId::Numbered(3), 0);
    assert!(v.page_bytes(3).iter().all(|b| *b == 0));
}

#[test]
fn one_pixel_spans_draw_one_nibble() {
    let mut v = video();
    let points = vec![Point { x: 0, y: 0 }, Point { x: 0, y: 2 }, Point { x: 0, y: 2 }, Point { x: 0, y: 0 }];
    v.fill_polygon(0xC, Point { x: 5, y: 10 }, Polygon { bbw: 0, bbh: 2, points });
    let page = v.page_bytes(2);
    let changed: Vec<usize> = (0..32000).filter(|i| page[*i] != 0).collect();
    assert_eq!(changed, vec![9 * 160 + 2, 10 * 160 + 2]);
    assert_eq!(page[9 * 160 + 2], 0x0C);
    assert_eq!(page[10 * 160 + 2], 0x0C);
}
