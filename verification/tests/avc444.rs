use rdpkit::avc444::{
    chroma_v1_to_yuv444, chroma_v2_to_yuv444, luma_to_yuv444, reconstruct_yuv444, ChromaVersion,
    Yuv444Frame,
};
use rdpkit::yuv::Yuv420Frame;

fn frame420(width: u32, height: u32, y_fill: u8, u_fill: u8, v_fill: u8) -> Yuv420Frame {
    let cw = Yuv420Frame::chroma_width(width) as usize;
    let ch = Yuv420Frame::chroma_height(height) as usize;
    Yuv420Frame {
        y: vec![y_fill; (width * height) as usize],
        u: vec![u_fill; cw * ch],
        v: vec![v_fill; cw * ch],
        width,
        height,
    }
}

#[test]
fn luma_copies_full_resolution_y() {
    let (w, h) = (4u32, 4u32);
    let mut main = frame420(w, h, 0, 128, 128);
    for (i, px) in main.y.iter_mut().enumerate() {
        *px = i as u8;
    }
    let mut dst = Yuv444Frame::new(w, h);
    luma_to_yuv444(&mut dst, &main);
    for i in 0..(w * h) as usize {
        assert_eq!(dst.y[i], i as u8, "luma pixel {i} mismatch");
    }
}

#[test]
fn luma_replicates_main_chroma_across_2x2_block() {
    let main = frame420(2, 2, 0, 200, 50);
    let mut dst = Yuv444Frame::new(2, 2);
    luma_to_yuv444(&mut dst, &main);
    assert_eq!(dst.u, vec![200, 200, 200, 200]);
    assert_eq!(dst.v, vec![50, 50, 50, 50]);
}

#[test]
fn luma_chroma_uses_distinct_samples_per_block() {
    let (w, h) = (4u32, 4u32);
    let mut main = frame420(w, h, 0, 0, 0);
    main.u = vec![10, 20, 30, 40];
    main.v = vec![11, 21, 31, 41];
    let mut dst = Yuv444Frame::new(w, h);
    luma_to_yuv444(&mut dst, &main);
    let at = |plane: &[u8], x: usize, y: usize| plane[y * w as usize + x];
    for (x, y) in [(0, 0), (1, 0), (0, 1), (1, 1)] {
        assert_eq!(at(&dst.u, x, y), 10);
        assert_eq!(at(&dst.v, x, y), 11);
    }
    for (x, y) in [(2, 0), (3, 0), (2, 1), (3, 1)] {
        assert_eq!(at(&dst.u, x, y), 20);
        assert_eq!(at(&dst.v, x, y), 21);
    }
    assert_eq!(at(&dst.u, 0, 3), 30);
    assert_eq!(at(&dst.u, 3, 3), 40);
}

#[test]
fn chroma_v1_fills_odd_columns_of_even_rows() {
    let (w, h) = (4u32, 4u32);
    let mut dst = Yuv444Frame::new(w, h);
    let main = frame420(w, h, 0, 128, 128);
    luma_to_yuv444(&mut dst, &main);

    let mut aux = frame420(w, 16, 0, 0, 0);
    aux.u = {
        let mut v = vec![0u8; (Yuv420Frame::chroma_width(w) * Yuv420Frame::chroma_height(16)) as usize];
        v[0] = 60;
        v[1] = 61;
        v
    };
    aux.v = {
        let mut v = vec![0u8; (Yuv420Frame::chroma_width(w) * Yuv420Frame::chroma_height(16)) as usize];
        v[0] = 70;
        v[1] = 71;
        v
    };
    chroma_v1_to_yuv444(&mut dst, &aux);
    let at = |plane: &[u8], x: usize, y: usize| plane[y * w as usize + x];
    assert_eq!(at(&dst.u, 1, 0), 60);
    assert_eq!(at(&dst.u, 3, 0), 61);
    assert_eq!(at(&dst.v, 1, 0), 70);
    assert_eq!(at(&dst.v, 3, 0), 71);
}

#[test]
fn chroma_v1_fills_odd_rows_from_aux_luma() {
    let (w, h) = (4u32, 4u32);
    let mut dst = Yuv444Frame::new(w, h);
    let mut aux = frame420(w, 16, 0, 0, 0);
    for x in 0..w as usize {
        aux.y[x] = 90;
    }
    for x in 0..w as usize {
        aux.y[8 * w as usize + x] = 99;
    }
    chroma_v1_to_yuv444(&mut dst, &aux);
    let at = |plane: &[u8], x: usize, y: usize| plane[y * w as usize + x];
    for x in 0..w as usize {
        assert_eq!(at(&dst.u, x, 1), 90, "U odd-row col {x}");
    }
    for x in 0..w as usize {
        assert_eq!(at(&dst.v, x, 1), 99, "V odd-row col {x}");
    }
}

#[test]
fn reconstruct_full_frame_is_consistent() {
    let (w, h) = (8u32, 8u32);
    let main = frame420(w, h, 120, 130, 140);
    let aux = frame420(w, 16, 200, 210, 220);
    let out = reconstruct_yuv444(&main, &aux, ChromaVersion::V1, w, h);
    assert_eq!(out.y.len(), (w * h) as usize);
    assert_eq!(out.u.len(), (w * h) as usize);
    assert_eq!(out.v.len(), (w * h) as usize);
    assert!(out.y.iter().all(|&p| p == 120));
    assert!(out.u.iter().all(|&p| p != 128), "some U left unwritten");
}

#[test]
fn combine_is_panic_free_on_undersized_aux() {
    let (w, h) = (16u32, 16u32);
    let main = frame420(w, h, 50, 60, 70);
    let tiny_aux = frame420(2, 2, 0, 0, 0);
    let _ = reconstruct_yuv444(&main, &tiny_aux, ChromaVersion::V1, w, h);
    let _ = reconstruct_yuv444(&main, &tiny_aux, ChromaVersion::V2, w, h);
}

#[test]
fn chroma_v2_fills_odd_columns_from_aux_luma_halves() {
    let (w, h) = (4u32, 2u32);
    let mut dst = Yuv444Frame::new(w, h);
    let main = frame420(w, h, 0, 128, 128);
    luma_to_yuv444(&mut dst, &main);
    let mut aux = frame420(w, h, 0, 0, 0);
    aux.y[0] = 80;
    aux.y[1] = 81;
    aux.y[2] = 90;
    aux.y[3] = 91;
    chroma_v2_to_yuv444(&mut dst, &aux);
    let at = |plane: &[u8], x: usize, y: usize| plane[y * w as usize + x];
    assert_eq!(at(&dst.u, 1, 0), 80);
    assert_eq!(at(&dst.u, 3, 0), 81);
    assert_eq!(at(&dst.v, 1, 0), 90);
    assert_eq!(at(&dst.v, 3, 0), 91);
}

#[test]
fn chroma_v2_fills_even_columns_of_odd_rows_from_aux_chroma() {
    // 8x2 target: odd row 1, even columns 0/4 from aux chroma at x, columns
    // 2/6 from the quarter-offset samples.
    let (w, h) = (8u32, 2u32);
    let mut dst = Yuv444Frame::new(w, h);
    let mut aux = frame420(w, h, 0, 0, 0);
    aux.u = vec![1, 2, 3, 4];
    aux.v = vec![5, 6, 7, 8];
    chroma_v2_to_yuv444(&mut dst, &aux);
    let at = |plane: &[u8], x: usize, y: usize| plane[y * w as usize + x];
    assert_eq!(at(&dst.u, 0, 1), 1);
    assert_eq!(at(&dst.u, 4, 1), 2);
    assert_eq!(at(&dst.u, 2, 1), 3);
    assert_eq!(at(&dst.u, 6, 1), 4);
    assert_eq!(at(&dst.v, 0, 1), 5);
    assert_eq!(at(&dst.v, 6, 1), 8);
    // Even rows keep their even columns.
    assert_eq!(at(&dst.u, 0, 0), 128);
}

#[test]
fn yuv444_frame_new_is_neutral() {
    let f = Yuv444Frame::new(3, 2);
    assert_eq!(f.y, vec![0; 6]);
    assert_eq!(f.u, vec![128; 6]);
    assert_eq!(f.v, vec![128; 6]);
}

#[test]
fn chroma_plane_sizes_round_up() {
    assert_eq!(Yuv420Frame::chroma_width(1919), 960);
    assert_eq!(Yuv420Frame::chroma_height(1080), 540);
    assert_eq!(Yuv420Frame::chroma_width(u32::MAX), 2147483648);
}
