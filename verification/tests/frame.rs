use rdpkit::frame::{blit_tile, convert_uncompressed_to_rgba, crop_decoded_frame, crop_region, pack_plane};

#[test]
fn crop_decoded_frame_identity() {
    let data = vec![0xFFu8; 4 * 4 * 4];
    let cropped = crop_decoded_frame(&data, 4, 4, 4, 4);
    assert_eq!(cropped.len(), data.len());
}

#[test]
fn crop_decoded_frame_macroblock_alignment() {
    let data = vec![0xAAu8; 1920 * 1088 * 4];
    let cropped = crop_decoded_frame(&data, 1920, 1088, 1920, 1080);
    assert_eq!(cropped.len(), 1920 * 1080 * 4);
}

#[test]
fn crop_decoded_frame_keeps_top_left_columns() {
    // 2x2 decoded frame cropped to 1x1: only the first pixel survives.
    let data: Vec<u8> = (0u8..16).collect();
    assert_eq!(crop_decoded_frame(&data, 2, 2, 1, 1), vec![0, 1, 2, 3]);
    assert!(crop_decoded_frame(&data, 0, 2, 1, 1).is_empty());
}

fn coord_framebuffer(w: usize, h: usize) -> Vec<u8> {
    let mut fb = vec![0u8; w * h * 4];
    for y in 0..h {
        for x in 0..w {
            let i = (y * w + x) * 4;
            fb[i] = u8::try_from(x).expect("test width < 256");
            fb[i + 1] = u8::try_from(y).expect("test height < 256");
            fb[i + 3] = 0xFF;
        }
    }
    fb
}

#[test]
fn crop_region_offset_subrect_is_byte_exact() {
    let (surface_w, surface_h) = (10usize, 8usize);
    let fb = coord_framebuffer(surface_w, surface_h);
    let (x, y, w, h) = (3usize, 2usize, 4usize, 3usize);

    let cropped = crop_region(&fb, surface_w, x, y, w, h);

    assert_eq!(cropped.len(), w * h * 4);
    for ry in 0..h {
        for rx in 0..w {
            let ci = (ry * w + rx) * 4;
            assert_eq!(cropped[ci], u8::try_from(x + rx).expect("fits u8"), "R at ({rx},{ry})");
            assert_eq!(cropped[ci + 1], u8::try_from(y + ry).expect("fits u8"), "G at ({rx},{ry})");
            assert_eq!(cropped[ci + 3], 0xFF);
        }
    }
}

#[test]
fn crop_region_then_blit_back_matches_full_frame_delivery() {
    let (surface_w, surface_h) = (12usize, 9usize);
    let fb = coord_framebuffer(surface_w, surface_h);
    let (x, y, w, h) = (5usize, 4usize, 4usize, 3usize);

    let region = crop_region(&fb, surface_w, x, y, w, h);

    let mut dst = vec![0u8; surface_w * surface_h * 4];
    for px in dst.chunks_exact_mut(4) {
        px[3] = 0xFF;
    }
    for ry in 0..h {
        let src = ry * w * 4;
        let d = ((y + ry) * surface_w + x) * 4;
        dst[d..d + w * 4].copy_from_slice(&region[src..src + w * 4]);
    }

    for py in 0..surface_h {
        for px in 0..surface_w {
            let i = (py * surface_w + px) * 4;
            let inside = px >= x && px < x + w && py >= y && py < y + h;
            if inside {
                assert_eq!(&dst[i..i + 4], &fb[i..i + 4], "region pixel ({px},{py})");
            } else {
                assert_eq!(&dst[i..i + 4], &[0, 0, 0, 0xFF], "untouched pixel ({px},{py})");
            }
        }
    }
}

#[test]
fn crop_region_rows_outside_stay_zero() {
    let fb = coord_framebuffer(4, 2);
    let cropped = crop_region(&fb, 4, 0, 1, 2, 2);
    assert_eq!(&cropped[0..8], &fb[16..24]);
    assert_eq!(&cropped[8..16], &[0u8; 8]);
}

#[test]
fn convert_uncompressed_bgrx_to_rgba() {
    let wire_pixels = vec![
        0x00, 0x80, 0xFF, 0xCC, //
        0x10, 0x20, 0x30, 0x40,
    ];
    let rgba = convert_uncompressed_to_rgba(&wire_pixels);
    assert_eq!(rgba, vec![0xFF, 0x80, 0x00, 0xFF, 0x30, 0x20, 0x10, 0xFF]);
}

#[test]
fn convert_uncompressed_drops_partial_pixel() {
    let rgba = convert_uncompressed_to_rgba(&[1, 2, 3, 4, 5, 6]);
    assert_eq!(rgba, vec![3, 2, 1, 0xFF]);
}

#[test]
fn blit_tile_places_tile_and_clips() {
    // 64x64 tile of 0x11 into a 70x66 framebuffer at (60, 60): only a 10x6
    // corner lands inside.
    let tile = vec![0x11u8; 64 * 64 * 4];
    let (fb_w, fb_h) = (70usize, 66usize);
    let mut fb = vec![0u8; fb_w * fb_h * 4];
    blit_tile(&tile, &mut fb, fb_w, fb_h, 60, 60);
    for y in 0..fb_h {
        for x in 0..fb_w {
            let i = (y * fb_w + x) * 4;
            let inside = x >= 60 && y >= 60;
            let expected = if inside { 0x11 } else { 0 };
            assert_eq!(fb[i], expected, "pixel ({x},{y})");
        }
    }
}

#[test]
fn blit_tile_outside_framebuffer_is_ignored() {
    let tile = vec![0x22u8; 64 * 64 * 4];
    let mut fb = vec![0u8; 8 * 8 * 4];
    blit_tile(&tile, &mut fb, 8, 8, 8, 0);
    assert!(fb.iter().all(|&b| b == 0));
}

#[test]
fn pack_plane_drops_stride_padding() {
    // 3x2 plane stored with a stride of 4.
    let src = [1u8, 2, 3, 99, 4, 5, 6, 99];
    assert_eq!(pack_plane(&src, 4, 3, 2), vec![1, 2, 3, 4, 5, 6]);
}

#[test]
fn pack_plane_leaves_missing_rows_zero() {
    let src = [1u8, 2, 3, 99, 4, 5];
    assert_eq!(pack_plane(&src, 4, 3, 2), vec![1, 2, 3, 0, 0, 0]);
}

#[test]
fn blit_tile_clips_to_the_framebuffer() {
    // A 64x64 tile of 7s blitted at (2, 1) into a 4x3 framebuffer of 1s.
    let tile = vec![7u8; 64 * 64 * 4];
    let mut fb = vec![1u8; 4 * 3 * 4];
    blit_tile(&tile, &mut fb, 4, 3, 2, 1);
    assert_eq!(fb.len(), 4 * 3 * 4);
    for y in 0..3 {
        for x in 0..4 {
            let expected = if x >= 2 && y >= 1 { 7 } else { 1 };
            assert_eq!(&fb[(y * 4 + x) * 4..(y * 4 + x + 1) * 4], &[expected; 4], "pixel ({x}, {y})");
        }
    }
}
