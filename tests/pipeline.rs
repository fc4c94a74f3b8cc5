use remove_background::{
    apply_mask, apply_mask_serial, buffer_fits, decode_webp, expand_rgb, fast_resize, pack_tensor,
    preprocess_image, remove_background, resample_buffer, resize_dimensions, resize_mask, write_pixel,
    AlphaMask, PipelineError, PixelLayout, RgbaImage, REF_SIZE,
};

fn pattern_image(width: u32, height: u32) -> RgbaImage {
    let mut data = Vec::new();
    for i in 0..(width * height) {
        data.push((i % 251) as u8);
        data.push((i * 7 % 253) as u8);
        data.push((i * 13 % 255) as u8);
        data.push(200);
    }
    RgbaImage::from_raw(width, height, data).unwrap()
}

fn uniform_mask(width: u32, height: u32, level: u8) -> AlphaMask {
    AlphaMask::from_raw(width, height, vec![level; (width * height) as usize]).unwrap()
}

#[test]
fn plan_landscape_over_reference() {
    assert_eq!(resize_dimensions(1000, 700, REF_SIZE), Ok((512, 352)));
}

#[test]
fn plan_portrait_over_reference() {
    assert_eq!(resize_dimensions(700, 1000, 512), Ok((352, 512)));
}

#[test]
fn plan_small_image_rounds_down() {
    assert_eq!(resize_dimensions(100, 70, 512), Ok((96, 64)));
    assert_eq!(resize_dimensions(512, 512, 512), Ok((512, 512)));
}

#[test]
fn plan_sub_block_side_clamps_to_32() {
    assert_eq!(resize_dimensions(20, 50, 512), Ok((32, 32)));
    assert_eq!(resize_dimensions(5000, 100, 512), Ok((512, 32)));
}

#[test]
fn plan_rejects_zero_sides() {
    assert_eq!(resize_dimensions(0, 10, 512), Err(PipelineError::InvalidDimensions));
    assert_eq!(resize_dimensions(10, 0, 512), Err(PipelineError::InvalidDimensions));
    assert_eq!(resize_dimensions(100, 100, 16), Err(PipelineError::InvalidDimensions));
}

#[test]
fn plan_outputs_are_multiples_of_32_within_reference() {
    for (w, h) in [(32u32, 32u32), (33, 999), (1920, 1080), (513, 32), (4000, 3000), (300, 511)] {
        let (pw, ph) = resize_dimensions(w, h, 512).unwrap();
        assert_eq!(pw % 32, 0);
        assert_eq!(ph % 32, 0);
        assert!(pw > 0 && ph > 0);
        if w.max(h) > 512 {
            assert!(pw.max(ph) <= 512);
        } else {
            assert_eq!((pw, ph), (w / 32 * 32, h / 32 * 32));
        }
    }
}

#[test]
fn buffer_fits_checks_exact_length() {
    assert!(buffer_fits(24, 2, 3, 4));
    assert!(!buffer_fits(23, 2, 3, 4));
    assert!(!buffer_fits(25, 2, 3, 4));
    assert!(buffer_fits(6, 2, 3, 1));
    assert!(!buffer_fits(0, u32::MAX, u32::MAX, 4));
    assert!(buffer_fits(32, 2, 2, 8));
    assert!(!buffer_fits(16, 2, 2, 8));
}

#[test]
fn from_raw_rejects_wrong_length() {
    assert!(RgbaImage::from_raw(2, 2, vec![0; 15]).is_none());
    assert!(AlphaMask::from_raw(2, 2, vec![0; 5]).is_none());
    let img = RgbaImage::from_raw(2, 2, vec![9; 16]).unwrap();
    assert_eq!(img.dimensions(), (2, 2));
    assert_eq!(img.as_raw().len(), 16);
}

#[test]
fn resize_same_size_is_exact_copy() {
    let img = pattern_image(37, 23);
    let out = fast_resize(&img, 37, 23).unwrap();
    assert_eq!(out.dimensions(), (37, 23));
    assert_eq!(out.data, img.data);
}

#[test]
fn resize_changes_size() {
    let img = pattern_image(64, 48);
    let out = fast_resize(&img, 32, 24).unwrap();
    assert_eq!(out.dimensions(), (32, 24));
    assert_eq!(out.data.len(), 32 * 24 * 4);
}

#[test]
fn resize_keeps_uniform_colour() {
    let img = RgbaImage::from_raw(40, 40, [10u8, 20, 30, 255].repeat(1600)).unwrap();
    let out = fast_resize(&img, 17, 9).unwrap();
    assert_eq!(out.data, [10u8, 20, 30, 255].repeat(17 * 9));
}

#[test]
fn resize_rejects_inconsistent_buffer() {
    let img = RgbaImage { width: 4, height: 4, data: vec![0; 10] };
    assert_eq!(fast_resize(&img, 2, 2), Err(PipelineError::ResizeFailed));
    assert_eq!(
        resample_buffer(&vec![0; 10], PixelLayout::Gray8, 4, 4, 2, 2),
        Err(PipelineError::ResizeFailed)
    );
}

#[test]
fn resample_single_channel() {
    let out = resample_buffer(&vec![100u8; 64], PixelLayout::Gray8, 8, 8, 3, 5).unwrap();
    assert_eq!(out, vec![100u8; 15]);
}

#[test]
fn pack_is_channel_planar() {
    let img = RgbaImage::from_raw(2, 1, vec![1, 2, 3, 4, 5, 6, 7, 8]).unwrap();
    let t = pack_tensor(&img);
    assert_eq!(t.shape(), (1, 3, 1, 2));
    assert_eq!(t.data, vec![1, 5, 2, 6, 3, 7]);
}

#[test]
fn preprocess_plans_resizes_and_packs() {
    let img = pattern_image(1000, 700);
    let t = preprocess_image(&img).unwrap();
    assert_eq!(t.shape(), (1, 3, 352, 512));
    assert_eq!(t.data.len(), 3 * 352 * 512);
}

#[test]
fn preprocess_keeps_planned_size_image() {
    let img = pattern_image(64, 32);
    let t = preprocess_image(&img).unwrap();
    assert_eq!(t.shape(), (1, 3, 32, 64));
    assert_eq!(t, pack_tensor(&img));
}

#[test]
fn preprocess_errors() {
    let empty = RgbaImage { width: 0, height: 5, data: vec![] };
    assert_eq!(preprocess_image(&empty), Err(PipelineError::InvalidDimensions));
    let bad = RgbaImage { width: 64, height: 64, data: vec![0; 3] };
    assert_eq!(preprocess_image(&bad), Err(PipelineError::ResizeFailed));
}

#[test]
fn mask_same_size_is_identity() {
    let mask = AlphaMask::from_raw(3, 2, vec![0, 1, 127, 128, 254, 255]).unwrap();
    let out = resize_mask(&mask, 3, 2).unwrap();
    assert_eq!(out.data, mask.data);
}

#[test]
fn mask_upsampled_to_original_size() {
    let mask = uniform_mask(512, 352, 255);
    let out = resize_mask(&mask, 1000, 700).unwrap();
    assert_eq!(out.dimensions(), (1000, 700));
    assert_eq!(out.data.len(), 700_000);
    assert!(out.data.iter().all(|&v| v == 255));
}

#[test]
fn mask_rejects_inconsistent_buffer() {
    let mask = AlphaMask { width: 3, height: 3, data: vec![0; 8] };
    assert_eq!(resize_mask(&mask, 6, 6), Err(PipelineError::ResizeFailed));
}

#[test]
fn composite_keeps_colours_and_sets_alpha() {
    let img = RgbaImage::from_raw(2, 1, vec![1, 2, 3, 4, 5, 6, 7, 8]).unwrap();
    let mask = AlphaMask::from_raw(2, 1, vec![128, 0]).unwrap();
    let out = apply_mask(&img, &mask).unwrap();
    assert_eq!(out.data, vec![1, 2, 3, 128, 5, 6, 7, 0]);
}

#[test]
fn composite_dimension_mismatch() {
    let img = pattern_image(100, 100);
    let mask = uniform_mask(90, 90, 255);
    assert_eq!(apply_mask(&img, &mask), Err(PipelineError::DimensionMismatch));
    assert_eq!(apply_mask_serial(&img, &mask), Err(PipelineError::DimensionMismatch));
}

#[test]
fn composite_rejects_inconsistent_buffer() {
    let img = RgbaImage { width: 2, height: 2, data: vec![0; 12] };
    let mask = uniform_mask(2, 2, 1);
    assert_eq!(apply_mask(&img, &mask), Err(PipelineError::DimensionMismatch));
}

#[test]
fn composite_parallel_matches_serial() {
    let img = pattern_image(123, 77);
    let levels: Vec<u8> = (0..123 * 77).map(|i| (i * 31 % 256) as u8).collect();
    let mask = AlphaMask::from_raw(123, 77, levels).unwrap();
    let a = apply_mask(&img, &mask).unwrap();
    let b = apply_mask_serial(&img, &mask).unwrap();
    assert_eq!(a, b);
    let c = apply_mask(&img, &mask).unwrap();
    assert_eq!(a, c);
}

#[test]
fn opaque_mask_keeps_original_pixels() {
    let img = pattern_image(40, 30);
    let t = preprocess_image(&img).unwrap();
    assert_eq!(t.shape(), (1, 3, 32, 32));
    let out = remove_background(&img, &uniform_mask(40, 30, 255)).unwrap();
    for (o, i) in out.data.chunks(4).zip(img.data.chunks(4)) {
        assert_eq!(&o[..3], &i[..3]);
        assert_eq!(o[3], 255);
    }
}

#[test]
fn write_pixel_fills_one_chunk() {
    let mut chunk = [0u8; 4];
    write_pixel(&vec![1, 2, 3, 4, 5, 6, 7, 8], &vec![9, 10], 1, &mut chunk);
    assert_eq!(chunk, [5, 6, 7, 10]);
}

#[test]
fn end_to_end_scenario() {
    let img = pattern_image(1000, 700);
    let t = preprocess_image(&img).unwrap();
    assert_eq!(t.shape(), (1, 3, 352, 512));
    let mask = uniform_mask(512, 352, 255);
    let out = remove_background(&img, &mask).unwrap();
    assert_eq!(out.dimensions(), (1000, 700));
    assert_eq!(out.data.len(), 1000 * 700 * 4);
    assert!(out.data.chunks(4).all(|p| p[3] == 255));
}

#[test]
fn remove_background_errors() {
    let img = pattern_image(10, 10);
    let bad_mask = AlphaMask { width: 5, height: 5, data: vec![0; 3] };
    assert_eq!(remove_background(&img, &bad_mask), Err(PipelineError::ResizeFailed));
    let bad_img = RgbaImage { width: 10, height: 10, data: vec![0; 4] };
    assert_eq!(remove_background(&bad_img, &uniform_mask(5, 5, 9)), Err(PipelineError::DimensionMismatch));
}

#[test]
fn expand_rgb_adds_opaque_alpha() {
    assert_eq!(expand_rgb(&vec![1, 2, 3, 4, 5, 6]), vec![1, 2, 3, 255, 4, 5, 6, 255]);
}

#[test]
fn webp_rejects_garbage() {
    match decode_webp(&vec![1, 2, 3, 4]) {
        Err(PipelineError::IoError(m)) => assert_eq!(m, "Failed to decode WebP image"),
        other => panic!("unexpected {:?}", other),
    }
}

#[test]
fn webp_lossless_round_trip() {
    let rgba: Vec<u8> = (0..6 * 4).map(|i| (i * 10) as u8).collect();
    let encoded = webp::Encoder::from_rgba(&rgba, 3, 2).encode_lossless();
    let img = decode_webp(&encoded.to_vec()).unwrap();
    assert_eq!(img.dimensions(), (3, 2));
    assert_eq!(img.data, rgba);
}

#[test]
fn webp_without_alpha_becomes_opaque() {
    let rgb: Vec<u8> = (0..4 * 3).map(|i| (i * 20) as u8).collect();
    let encoded = webp::Encoder::from_rgb(&rgb, 2, 2).encode_lossless();
    let img = decode_webp(&encoded.to_vec()).unwrap();
    assert_eq!(img.dimensions(), (2, 2));
    assert_eq!(img.data, expand_rgb(&rgb));
}

#[test]
fn resize_rejects_zero_sides() {
    let empty = RgbaImage { width: 0, height: 5, data: vec![] };
    assert_eq!(fast_resize(&empty, 3, 3), Err(PipelineError::ResizeFailed));
    assert_eq!(fast_resize(&empty, 0, 5), Err(PipelineError::ResizeFailed));
    let img = pattern_image(4, 4);
    assert_eq!(fast_resize(&img, 0, 2), Err(PipelineError::ResizeFailed));
    assert_eq!(fast_resize(&img, 2, 0), Err(PipelineError::ResizeFailed));
    assert_eq!(
        resample_buffer(&vec![], PixelLayout::Gray8, 5, 0, 2, 2),
        Err(PipelineError::ResizeFailed)
    );
}

#[test]
fn mask_rejects_zero_sides() {
    let empty = AlphaMask { width: 0, height: 3, data: vec![] };
    assert_eq!(resize_mask(&empty, 4, 4), Err(PipelineError::ResizeFailed));
    assert_eq!(resize_mask(&uniform_mask(3, 3, 7), 0, 3), Err(PipelineError::ResizeFailed));
}

#[test]
fn remove_background_rejects_zero_sides() {
    let empty_mask = AlphaMask { width: 0, height: 5, data: vec![] };
    assert_eq!(remove_background(&pattern_image(10, 10), &empty_mask), Err(PipelineError::ResizeFailed));
    let empty_img = RgbaImage { width: 0, height: 0, data: vec![] };
    assert_eq!(remove_background(&empty_img, &uniform_mask(2, 2, 9)), Err(PipelineError::ResizeFailed));
}
