use image::ImageFormat;
use imgweave::args::Args;
use imgweave::grid::PixelGrid;
use imgweave::interleave::{alternate_pixels, set_rgba};
use imgweave::output::{FloatingImage, ImageDataErrors, OUTPUT_CAPACITY};
use imgweave::pipeline::{combine_images, merge_images, standardise_size};
use imgweave::reconcile::{get_smallest_dimensions, reconcile, ResizeTarget};

fn solid(width: u32, height: u32, value: u8) -> PixelGrid {
    let len = (width * height * 3) as usize;
    PixelGrid::new(width, height, vec![value; len]).unwrap()
}

fn counting(width: u32, height: u32, start: u8) -> PixelGrid {
    let len = (width * height * 3) as usize;
    let data: Vec<u8> = (0..len).map(|k| start.wrapping_add(k as u8)).collect();
    PixelGrid::new(width, height, data).unwrap()
}

#[test]
fn smallest_dimensions_prefers_smaller_area() {
    assert_eq!(get_smallest_dimensions((10, 10), (5, 5)), (5, 5));
    assert_eq!(get_smallest_dimensions((3, 4), (10, 2)), (3, 4));
}

#[test]
fn smallest_dimensions_tie_keeps_first() {
    assert_eq!(get_smallest_dimensions((100, 100), (50, 200)), (100, 100));
    assert_eq!(get_smallest_dimensions((50, 200), (100, 100)), (50, 200));
}

#[test]
fn smallest_dimensions_large_sides_do_not_overflow() {
    assert_eq!(get_smallest_dimensions((u32::MAX, u32::MAX), (u32::MAX, 1)), (u32::MAX, 1));
}

#[test]
fn reconcile_equal_area_resizes_second() {
    let r = reconcile((100, 100), (50, 200));
    assert_eq!((r.width, r.height), (100, 100));
    assert_eq!(r.resize, ResizeTarget::Second);
}

#[test]
fn reconcile_smaller_second_resizes_first() {
    let r = reconcile((640, 480), (320, 240));
    assert_eq!((r.width, r.height), (320, 240));
    assert_eq!(r.resize, ResizeTarget::First);
}

#[test]
fn reconcile_equal_dimensions_resizes_neither() {
    let r = reconcile((64, 32), (64, 32));
    assert_eq!((r.width, r.height), (64, 32));
    assert_eq!(r.resize, ResizeTarget::Neither);
}

#[test]
fn set_rgba_copies_inclusive_range() {
    let v: Vec<u8> = vec![9, 8, 7, 6, 5, 4];
    assert_eq!(set_rgba(&v, 1, 4), vec![8, 7, 6, 5]);
    assert_eq!(set_rgba(&v, 5, 5), vec![4]);
}

#[test]
fn interleave_24_bytes() {
    let a: Vec<u8> = (0..24).collect();
    let b: Vec<u8> = (100..124).collect();
    let r = alternate_pixels(a.clone(), b.clone()).unwrap();
    assert_eq!(r.len(), 24);
    assert_eq!(&r[0..4], &a[0..4]);
    assert_eq!(&r[4..8], &b[4..8]);
    assert_eq!(&r[8..12], &a[8..12]);
    assert_eq!(&r[12..16], &b[12..16]);
    assert_eq!(&r[16..20], &a[16..20]);
    assert_eq!(&r[20..24], &b[20..24]);
}

#[test]
fn interleave_period_of_eight() {
    let a: Vec<u8> = vec![1; 16];
    let b: Vec<u8> = vec![2; 16];
    let r = alternate_pixels(a, b).unwrap();
    assert_eq!(r, vec![1, 1, 1, 1, 2, 2, 2, 2, 1, 1, 1, 1, 2, 2, 2, 2]);
}

#[test]
fn interleave_trailing_single_block() {
    let r = alternate_pixels(vec![1; 12], vec![2; 12]).unwrap();
    assert_eq!(r, vec![1, 1, 1, 1, 2, 2, 2, 2, 1, 1, 1, 1]);
}

#[test]
fn interleave_empty() {
    assert_eq!(alternate_pixels(Vec::new(), Vec::new()).unwrap(), Vec::<u8>::new());
}

#[test]
fn interleave_not_commutative() {
    let a: Vec<u8> = vec![1, 2, 3, 4, 5, 6, 7, 8];
    let b: Vec<u8> = vec![1, 2, 3, 4, 5, 6, 7, 9];
    let ab = alternate_pixels(a.clone(), b.clone()).unwrap();
    let ba = alternate_pixels(b, a).unwrap();
    assert_ne!(ab, ba);
}

#[test]
fn interleave_rejects_length_not_multiple_of_four() {
    assert_eq!(alternate_pixels(vec![0; 6], vec![0; 6]), Err(ImageDataErrors::OutOfRange));
    assert_eq!(alternate_pixels(vec![0; 3], vec![0; 3]), Err(ImageDataErrors::OutOfRange));
}

#[test]
fn interleave_rejects_unequal_lengths() {
    assert_eq!(alternate_pixels(vec![0; 8], vec![0; 4]), Err(ImageDataErrors::OutOfRange));
}

#[test]
fn pixel_grid_checks_length() {
    assert!(PixelGrid::new(2, 2, vec![0; 12]).is_some());
    assert!(PixelGrid::new(2, 2, vec![0; 11]).is_none());
    assert!(PixelGrid::new(0, 2, Vec::new()).is_none());
    assert!(PixelGrid::new(2, 0, Vec::new()).is_none());
}

#[test]
fn floating_image_starts_empty() {
    let img = FloatingImage::new(3, 4, String::from("out.png"));
    assert_eq!((img.width, img.height), (3, 4));
    assert_eq!(img.name, "out.png");
    assert!(img.data.is_empty());
    assert_eq!(img.capacity, OUTPUT_CAPACITY);
}

#[test]
fn set_data_within_capacity() {
    let mut img = FloatingImage::new(2, 2, String::from("o"));
    assert_eq!(img.set_data(vec![7; 12]), Ok(()));
    assert_eq!(img.data, vec![7; 12]);
    assert_eq!(img.set_data(vec![1; OUTPUT_CAPACITY]), Ok(()));
    assert_eq!(img.data.len(), OUTPUT_CAPACITY);
}

#[test]
fn set_data_over_capacity() {
    let mut img = FloatingImage::new(2, 2, String::from("o"));
    img.set_data(vec![5; 4]).unwrap();
    assert_eq!(img.set_data(vec![0; OUTPUT_CAPACITY + 1]), Err(ImageDataErrors::BufferTooSmall));
    assert_eq!(img.data, vec![5; 4]);
}

#[test]
fn standardise_resizes_larger_image() {
    let (one, two) = standardise_size(solid(4, 4, 200), solid(2, 2, 10));
    assert_eq!((one.width, one.height), (2, 2));
    assert_eq!((two.width, two.height), (2, 2));
    assert_eq!(one.data, vec![200; 12]);
    assert_eq!(two.data, vec![10; 12]);
}

#[test]
fn standardise_equal_area_resizes_second() {
    let (one, two) = standardise_size(solid(2, 8, 1), solid(4, 4, 2));
    assert_eq!((one.width, one.height), (2, 8));
    assert_eq!((two.width, two.height), (2, 8));
    assert_eq!(one.data, vec![1; 48]);
    assert_eq!(two.data, vec![2; 48]);
}

#[test]
fn combine_images_interleaves_data() {
    let r = combine_images(solid(2, 2, 3), solid(2, 2, 4)).unwrap();
    assert_eq!(r, vec![3, 3, 3, 3, 4, 4, 4, 4, 3, 3, 3, 3]);
}

#[test]
fn merge_rejects_different_formats() {
    let r = merge_images(solid(2, 2, 1), ImageFormat::Png, solid(2, 2, 2), ImageFormat::Jpeg, String::from("o"));
    assert_eq!(r.unwrap_err(), ImageDataErrors::DifferentImageFormats);
}

#[test]
fn merge_rejects_unaligned_size() {
    let r = merge_images(solid(1, 1, 1), ImageFormat::Png, solid(1, 1, 2), ImageFormat::Png, String::from("o"));
    assert_eq!(r.unwrap_err(), ImageDataErrors::OutOfRange);
}

#[test]
fn merge_rejects_over_capacity() {
    let r = merge_images(solid(1104, 1104, 1), ImageFormat::Png, solid(1104, 1104, 2), ImageFormat::Png, String::from("o"));
    assert_eq!(r.unwrap_err(), ImageDataErrors::BufferTooSmall);
}

#[test]
fn merge_same_size() {
    let one = counting(2, 2, 0);
    let two = counting(2, 2, 100);
    let img = merge_images(one, ImageFormat::Png, two, ImageFormat::Png, String::from("out.png")).unwrap();
    assert_eq!((img.width, img.height), (2, 2));
    assert_eq!(img.name, "out.png");
    assert_eq!(img.data, vec![0, 1, 2, 3, 104, 105, 106, 107, 8, 9, 10, 11]);
}

#[test]
fn merge_resizes_to_smaller() {
    let img = merge_images(solid(8, 8, 200), ImageFormat::Png, solid(4, 2, 10), ImageFormat::Png, String::from("o")).unwrap();
    assert_eq!((img.width, img.height), (4, 2));
    assert_eq!(img.data.len(), 24);
    assert_eq!(&img.data[0..8], &[200, 200, 200, 200, 10, 10, 10, 10]);
}

#[test]
fn merge_is_repeatable() {
    let first = merge_images(counting(8, 4, 3), ImageFormat::Bmp, counting(4, 4, 50), ImageFormat::Bmp, String::from("o")).unwrap();
    let second = merge_images(counting(8, 4, 3), ImageFormat::Bmp, counting(4, 4, 50), ImageFormat::Bmp, String::from("o")).unwrap();
    assert_eq!((first.width, first.height), (second.width, second.height));
    assert_eq!(first.data, second.data);
}

#[test]
fn merged_output_round_trips_dimensions() {
    let img = merge_images(counting(6, 4, 0), ImageFormat::Png, counting(4, 4, 9), ImageFormat::Png, String::from("o")).unwrap();
    let mut bytes: Vec<u8> = Vec::new();
    image::write_buffer_with_format(
        &mut std::io::Cursor::new(&mut bytes),
        &img.data,
        img.width,
        img.height,
        image::ColorType::Rgb8,
        ImageFormat::Png,
    )
    .unwrap();
    let decoded = image::load_from_memory_with_format(&bytes, ImageFormat::Png).unwrap();
    assert_eq!((decoded.width(), decoded.height()), (4, 4));
}

#[test]
fn args_from_command_line() {
    let argv = vec![String::from("prog"), String::from("a.png"), String::from("b.png"), String::from("c.png")];
    let args = Args::new(argv).unwrap();
    assert_eq!(args.image_one, "a.png");
    assert_eq!(args.image_two, "b.png");
    assert_eq!(args.output, "c.png");
}

#[test]
fn args_missing_output() {
    let argv = vec![String::from("prog"), String::from("a.png"), String::from("b.png")];
    assert!(Args::new(argv).is_none());
}
