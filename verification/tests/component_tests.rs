use image_combiner::errors::ImageDataErrors;
use image_combiner::images::FloatingImage;
use image_combiner::interleave::alternate_pixels;
use image_combiner::reconcile::get_smallest_dimensions;

#[test]
fn smallest_dimensions_picks_fewer_pixels() {
    assert_eq!(get_smallest_dimensions((4, 4), (8, 8)), (4, 4));
    assert_eq!(get_smallest_dimensions((8, 8), (4, 4)), (4, 4));
    assert_eq!(get_smallest_dimensions((1, 100), (2, 2)), (2, 2));
}

#[test]
fn smallest_dimensions_tie_prefers_first() {
    assert_eq!(get_smallest_dimensions((10, 10), (20, 5)), (10, 10));
    assert_eq!(get_smallest_dimensions((20, 5), (10, 10)), (20, 5));
}

#[test]
fn alternate_pixels_empty_buffers() {
    let out = alternate_pixels(Vec::new(), Vec::new());
    assert!(out.is_empty());
}

#[test]
fn alternate_pixels_single_pixel() {
    let a = vec![1u8, 2, 3, 4];
    let b = vec![9u8, 8, 7, 6];
    assert_eq!(alternate_pixels(a, b), vec![1u8, 8, 7, 6]);
}

#[test]
fn alternate_pixels_bulk() {
    let n = 4000usize;
    let a: Vec<u8> = (0..n).map(|i| (i % 251) as u8).collect();
    let b: Vec<u8> = (0..n).map(|i| (i % 241) as u8).collect();
    let out = alternate_pixels(a.clone(), b.clone());
    assert_eq!(out.len(), n);
    for i in 0..n {
        if i % 4 == 0 {
            assert_eq!(out[i], a[i]);
        } else {
            assert_eq!(out[i], b[i]);
        }
    }
}

#[test]
fn new_output_image_has_empty_buffer() {
    let out = FloatingImage::new(3, 5, String::from("out.png"));
    assert_eq!(out.width, 3);
    assert_eq!(out.height, 5);
    assert_eq!(out.name, "out.png");
    assert!(out.data.is_empty());
}

#[test]
fn set_data_accepts_exact_capacity() {
    let mut out = FloatingImage::new(2, 2, String::from("out.png"));
    let buf: Vec<u8> = (0u8..16).collect();
    assert!(out.set_data(buf.clone()).is_ok());
    assert_eq!(out.data, buf);
}

#[test]
fn set_data_rejects_one_over_capacity() {
    let mut out = FloatingImage::new(2, 2, String::from("out.png"));
    let buf: Vec<u8> = (0u8..17).collect();
    let r = out.set_data(buf);
    assert!(matches!(r, Err(ImageDataErrors::BufferTooSmall)));
    assert!(out.data.is_empty());
}

#[test]
fn set_data_accepts_shorter_buffer() {
    let mut out = FloatingImage::new(2, 2, String::from("out.png"));
    let buf: Vec<u8> = vec![5u8, 6, 7, 8];
    assert!(out.set_data(buf.clone()).is_ok());
    assert_eq!(out.data, buf);
}
