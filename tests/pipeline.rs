use bridge_core::pipeline::{
    apply_filter_async, apply_filter_sync, decode_payload, encode_bitmap, process_image_heavy,
    transform, transform_bitmap, TransformError, TransformParams,
};
use bridge_core::gateway::{ExecutionMode, Placement, TaskHandle, WorkerPool};
use image::{DynamicImage, ImageFormat, Rgb, RgbImage};
use std::io::Cursor;

fn sample_png() -> Vec<u8> {
    let img = RgbImage::from_fn(8, 6, |x, y| Rgb([(x * 30) as u8, (y * 40) as u8, 200]));
    let mut out = Vec::new();
    DynamicImage::ImageRgb8(img)
        .write_to(&mut Cursor::new(&mut out), ImageFormat::Png)
        .unwrap();
    out
}

fn is_png(bytes: &[u8]) -> bool {
    bytes.starts_with(&[0x89, b'P', b'N', b'G', 0x0d, 0x0a, 0x1a, 0x0a])
}

#[test]
fn grayscale_without_blur_gives_equal_channels() {
    let input = sample_png();
    let params = TransformParams { grayscale: true, blur_radius: 0 };
    let out = transform(&input, params).unwrap();
    assert!(is_png(&out));
    assert_ne!(out, input);
    let decoded = image::load_from_memory(&out).unwrap();
    assert_eq!((decoded.width(), decoded.height()), (8, 6));
    for p in decoded.to_rgb8().pixels() {
        assert_eq!(p[0], p[1]);
        assert_eq!(p[1], p[2]);
    }
}

#[test]
fn plain_transform_keeps_pixels() {
    let input = sample_png();
    let params = TransformParams { grayscale: false, blur_radius: 0 };
    let out = transform(&input, params).unwrap();
    let before = image::load_from_memory(&input).unwrap().to_rgb8();
    let after = image::load_from_memory(&out).unwrap().to_rgb8();
    assert_eq!(before, after);
}

#[test]
fn blur_changes_pixels() {
    let input = sample_png();
    let sharp = transform(&input, TransformParams { grayscale: false, blur_radius: 0 }).unwrap();
    let soft = transform(&input, TransformParams { grayscale: false, blur_radius: 3 }).unwrap();
    let a = image::load_from_memory(&sharp).unwrap().to_rgb8();
    let b = image::load_from_memory(&soft).unwrap().to_rgb8();
    assert_eq!(b.dimensions(), (8, 6));
    assert_ne!(a, b);
}

#[test]
fn garbage_bytes_fail_to_decode() {
    let garbage = vec![1u8, 2, 3, 4, 5, 6, 7, 8, 9];
    let params = TransformParams { grayscale: true, blur_radius: 4 };
    assert_eq!(transform(&garbage, params), Err(TransformError::Decode));
    assert_eq!(garbage, vec![1u8, 2, 3, 4, 5, 6, 7, 8, 9]);
}

#[test]
fn empty_payload_fails_to_decode() {
    let params = TransformParams { grayscale: false, blur_radius: 0 };
    assert_eq!(transform(&[], params), Err(TransformError::Decode));
}

#[test]
fn truncated_png_fails_to_decode() {
    let input = sample_png();
    let params = TransformParams { grayscale: false, blur_radius: 0 };
    assert_eq!(transform(&input[..20], params), Err(TransformError::Decode));
}

#[test]
fn transform_is_deterministic() {
    let input = sample_png();
    let params = TransformParams { grayscale: true, blur_radius: 2 };
    let first = transform(&input, params).unwrap();
    let second = transform(&input, params).unwrap();
    assert_eq!(first, second);
}

#[test]
fn filter_variants_agree() {
    let input = sample_png();
    let on_worker = apply_filter_async(input.clone()).unwrap();
    let on_caller = apply_filter_sync(input.clone()).unwrap();
    assert!(is_png(&on_worker));
    assert_eq!(on_worker, on_caller);
    let direct = transform(&input, TransformParams { grayscale: false, blur_radius: 20 }).unwrap();
    assert_eq!(on_worker, direct);
}

#[test]
fn filter_variants_fail_alike() {
    assert_eq!(apply_filter_async(vec![0u8; 16]), Err(TransformError::Decode));
    assert_eq!(apply_filter_sync(vec![0u8; 16]), Err(TransformError::Decode));
}

#[test]
fn process_image_heavy_grays_and_blurs() {
    let input = sample_png();
    let out = process_image_heavy(input.clone()).unwrap();
    let direct = transform(&input, TransformParams { grayscale: true, blur_radius: 5 }).unwrap();
    assert_eq!(out, direct);
    let decoded = image::load_from_memory(&out).unwrap();
    for p in decoded.to_rgb8().pixels() {
        assert_eq!(p[0], p[1]);
        assert_eq!(p[1], p[2]);
    }
    assert_eq!(process_image_heavy(b"not an image".to_vec()), Err(TransformError::Decode));
}

#[test]
fn nonblocking_task_matches_blocking_call() {
    let input = sample_png();
    let params = TransformParams { grayscale: true, blur_radius: 1 };
    let mut pool = WorkerPool::new(1);
    assert_eq!(pool.dispatch(ExecutionMode::Blocking), Ok(Placement::CallingThread));
    let blocking = transform(&input, params);
    assert_eq!(pool.dispatch(ExecutionMode::NonBlocking), Ok(Placement::Worker));
    let mut handle: TaskHandle<Vec<u8>, TransformError> = TaskHandle::submitted();
    assert!(handle.start());
    assert!(handle.poll().is_none());
    assert!(handle.fulfill(transform(&input, params)));
    pool.release();
    assert_eq!(pool.in_flight(), 0);
    assert_eq!(handle.poll(), Some(&blocking));
    assert!(blocking.is_ok());
}

fn zero_width_farbfeld() -> Vec<u8> {
    let mut bytes = b"farbfeld".to_vec();
    bytes.extend_from_slice(&0u32.to_be_bytes());
    bytes.extend_from_slice(&1u32.to_be_bytes());
    bytes
}

#[test]
fn empty_bitmap_is_not_blurred_and_fails_to_encode() {
    let payload = zero_width_farbfeld();
    let img = decode_payload(&payload).unwrap();
    assert_eq!(img.width(), 0);
    let params = TransformParams { grayscale: false, blur_radius: 20 };
    assert_eq!(transform(&payload, params), Err(TransformError::Encode));
    assert_eq!(apply_filter_async(payload.clone()), Err(TransformError::Encode));
    assert_eq!(apply_filter_sync(payload.clone()), Err(TransformError::Encode));
    assert_eq!(process_image_heavy(payload), Err(TransformError::Encode));
}

#[test]
fn decode_payload_refuses_garbage() {
    assert!(matches!(decode_payload(b"garbage!"), Err(TransformError::Decode)));
}

#[test]
fn encode_bitmap_writes_png() {
    let img = decode_payload(&sample_png()).unwrap();
    let out = encode_bitmap(&img).unwrap();
    assert!(is_png(&out));
    let back = image::load_from_memory(&out).unwrap();
    assert_eq!(back.to_rgb8(), img.to_rgb8());
}

#[test]
fn transform_bitmap_matches_transform() {
    let input = sample_png();
    let params = TransformParams { grayscale: true, blur_radius: 0 };
    let img = decode_payload(&input).unwrap();
    assert_eq!(transform_bitmap(img, params), transform(&input, params));
}

#[test]
fn constant_image_stays_constant_under_blur() {
    let img = RgbImage::from_pixel(12, 9, Rgb([90, 140, 30]));
    let mut input = Vec::new();
    DynamicImage::ImageRgb8(img)
        .write_to(&mut Cursor::new(&mut input), ImageFormat::Png)
        .unwrap();
    let out = apply_filter_sync(input).unwrap();
    let back = image::load_from_memory(&out).unwrap().to_rgb8();
    assert_eq!(back.dimensions(), (12, 9));
    for p in back.pixels() {
        assert!((p[0] as i32 - 90).abs() <= 1);
        assert!((p[1] as i32 - 140).abs() <= 1);
        assert!((p[2] as i32 - 30).abs() <= 1);
    }
}
