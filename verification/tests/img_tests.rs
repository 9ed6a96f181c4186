use shogi_img::img::Img;
use shogi_img::pixel::Px;

fn px(r: u8, g: u8, b: u8, a: u8) -> Px {
    Px { r, g, b, a }
}

fn solid(width: u32, height: u32, p: Px) -> Img {
    Img::filled(width, height, p)
}

/// What the outside compositor computes for one pixel pair, used as the
/// expected value of the library's blending.
fn reference_blend(bottom: Px, top: Px) -> Px {
    let mut p = image::Rgba([bottom.r, bottom.g, bottom.b, bottom.a]);
    image::Pixel::blend(&mut p, &image::Rgba([top.r, top.g, top.b, top.a]));
    px(p.0[0], p.0[1], p.0[2], p.0[3])
}

#[test]
fn filled_images_hold_the_fill_color_everywhere() {
    let img = solid(4, 3, px(7, 8, 9, 255));
    assert_eq!(img.width(), 4);
    assert_eq!(img.height(), 3);
    for y in 0..3 {
        for x in 0..4 {
            assert_eq!(img.pixel(x, y), px(7, 8, 9, 255));
        }
    }
}

#[test]
fn from_raw_rejects_mismatched_rows_and_accepts_exact_ones() {
    let rows = vec![vec![px(1, 2, 3, 4), px(5, 6, 7, 8)], vec![px(9, 10, 11, 12), px(13, 14, 15, 16)]];
    let img = Img::from_raw(2, 2, rows).unwrap();
    assert_eq!(img.pixel(1, 0), px(5, 6, 7, 8));
    assert_eq!(img.pixel(0, 1), px(9, 10, 11, 12));

    let short = vec![vec![px(0, 0, 0, 0)]];
    assert!(Img::from_raw(1, 2, short).is_none());
    let ragged = vec![vec![px(0, 0, 0, 0)], vec![]];
    assert!(Img::from_raw(1, 2, ragged).is_none());
}

#[test]
fn overlaying_an_opaque_image_replaces_the_covered_pixels() {
    let mut base = solid(5, 5, px(10, 10, 10, 255));
    let top = solid(2, 2, px(200, 0, 0, 255));
    base.overlay(&top, 1, 2);
    assert_eq!(base.pixel(1, 2), px(200, 0, 0, 255));
    assert_eq!(base.pixel(2, 3), px(200, 0, 0, 255));
    assert_eq!(base.pixel(0, 0), px(10, 10, 10, 255));
    assert_eq!(base.pixel(3, 2), px(10, 10, 10, 255));
    assert_eq!(base.pixel(1, 4), px(10, 10, 10, 255));
}

#[test]
fn overlaying_a_transparent_image_changes_nothing() {
    let mut base = solid(3, 3, px(10, 20, 30, 255));
    let top = solid(3, 3, px(200, 0, 0, 0));
    base.overlay(&top, 0, 0);
    for y in 0..3 {
        for x in 0..3 {
            assert_eq!(base.pixel(x, y), px(10, 20, 30, 255));
        }
    }
}

#[test]
fn overlaying_a_translucent_image_blends_source_over() {
    let bottom = px(10, 20, 30, 255);
    let top = px(200, 100, 0, 127);
    let mut base = solid(2, 2, bottom);
    let layer = solid(1, 1, top);
    base.overlay(&layer, 0, 0);
    assert_eq!(base.pixel(0, 0), reference_blend(bottom, top));
    assert_ne!(base.pixel(0, 0), bottom);
    assert_ne!(base.pixel(0, 0), top);
    assert_eq!(base.pixel(1, 0), bottom);
}

#[test]
fn overlays_clip_at_the_canvas_edges() {
    let mut base = solid(3, 3, px(1, 1, 1, 255));
    let top = solid(5, 5, px(9, 9, 9, 255));
    base.overlay(&top, 2, 2);
    assert_eq!(base.pixel(2, 2), px(9, 9, 9, 255));
    assert_eq!(base.pixel(1, 1), px(1, 1, 1, 255));
    assert_eq!(base.pixel(2, 1), px(1, 1, 1, 255));
}

#[test]
fn rotate180_reverses_rows_and_columns() {
    let rows = vec![
        vec![px(1, 0, 0, 255), px(2, 0, 0, 255), px(3, 0, 0, 255)],
        vec![px(4, 0, 0, 255), px(5, 0, 0, 255), px(6, 0, 0, 255)],
    ];
    let img = Img::from_raw(3, 2, rows).unwrap();
    let rot = img.rotate180();
    assert_eq!(rot.width(), 3);
    assert_eq!(rot.height(), 2);
    assert_eq!(rot.pixel(0, 0), px(6, 0, 0, 255));
    assert_eq!(rot.pixel(1, 0), px(5, 0, 0, 255));
    assert_eq!(rot.pixel(2, 0), px(4, 0, 0, 255));
    assert_eq!(rot.pixel(0, 1), px(3, 0, 0, 255));
    assert_eq!(rot.pixel(2, 1), px(1, 0, 0, 255));
}

fn varied(width: u32, height: u32, seed: u8) -> (Img, image::RgbaImage) {
    let alphas = [0u8, 77, 127, 200, 255];
    let mut rows = Vec::new();
    let mut buf = image::RgbaImage::new(width, height);
    for y in 0..height {
        let mut row = Vec::new();
        for x in 0..width {
            let p = px(
                (x * 40 + y + seed as u32) as u8,
                (y * 30 + seed as u32) as u8,
                (x * 25) as u8,
                alphas[((x + 2 * y) % 5) as usize],
            );
            row.push(p);
            buf.put_pixel(x, y, image::Rgba([p.r, p.g, p.b, p.a]));
        }
        rows.push(row);
    }
    (Img::from_raw(width, height, rows).unwrap(), buf)
}

#[test]
fn overlay_agrees_with_the_outside_compositor() {
    let (mut bottom, mut bottom_ref) = varied(7, 6, 11);
    let (top, top_ref) = varied(4, 3, 170);
    // An offset that clips the top image at the right and bottom edges.
    bottom.overlay(&top, 4, 4);
    image::imageops::overlay(&mut bottom_ref, &top_ref, 4, 4);
    for y in 0..6 {
        for x in 0..7 {
            let q = bottom_ref.get_pixel(x, y).0;
            assert_eq!(bottom.pixel(x, y), px(q[0], q[1], q[2], q[3]));
        }
    }
}

#[test]
fn rotate180_agrees_with_the_outside_compositor() {
    let (img, buf) = varied(5, 4, 33);
    let rot = img.rotate180();
    let rot_ref = image::imageops::rotate180(&buf);
    for y in 0..4 {
        for x in 0..5 {
            let q = rot_ref.get_pixel(x, y).0;
            assert_eq!(rot.pixel(x, y), px(q[0], q[1], q[2], q[3]));
        }
    }
}

#[test]
fn duplicate_copies_every_pixel() {
    let rows = vec![vec![px(1, 2, 3, 4), px(5, 6, 7, 8)]];
    let img = Img::from_raw(2, 1, rows).unwrap();
    let copy = img.duplicate();
    assert_eq!(copy.width(), 2);
    assert_eq!(copy.height(), 1);
    assert_eq!(copy.pixel(0, 0), px(1, 2, 3, 4));
    assert_eq!(copy.pixel(1, 0), px(5, 6, 7, 8));
}
