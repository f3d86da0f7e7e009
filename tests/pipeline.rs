use combiner::error::ImageDataErrors;
use combiner::format::ImageFormat;
use combiner::output::{BufferState, FloatingImage};
use combiner::picture::{decode, Picture};
use combiner::pipeline::merge_images;

fn encoded(width: u32, height: u32, rgba: Vec<u8>, format: image::ImageOutputFormat) -> Vec<u8> {
    let img = image::RgbaImage::from_raw(width, height, rgba).unwrap();
    let mut bytes: Vec<u8> = Vec::new();
    img.write_to(&mut std::io::Cursor::new(&mut bytes), format).unwrap();
    bytes
}

fn png_bytes(width: u32, height: u32, rgba: Vec<u8>) -> Vec<u8> {
    encoded(width, height, rgba, image::ImageOutputFormat::Png)
}

#[test]
fn different_formats_are_refused() {
    let a = Picture::from_rgba(1, 1, vec![1, 2, 3, 4]).unwrap();
    let b = Picture::from_rgba(1, 1, vec![5, 6, 7, 8]).unwrap();
    let r = merge_images(a, ImageFormat::Png, b, ImageFormat::Jpeg, "out.png".to_string());
    assert_eq!(r.err().map(|e| e), Some(ImageDataErrors::DifferentImageFormats));
}

#[test]
fn different_formats_are_refused_before_resizing() {
    // An empty picture could not be resampled: the refusal comes first.
    let a = Picture::from_rgba(0, 3, vec![]).unwrap();
    let b = Picture::from_rgba(2, 2, vec![0; 16]).unwrap();
    let r = merge_images(a, ImageFormat::Gif, b, ImageFormat::Bmp, "o".to_string());
    assert_eq!(r.err(), Some(ImageDataErrors::DifferentImageFormats));
}

#[test]
fn same_format_images_are_merged() {
    let a = Picture::from_rgba(2, 1, vec![1, 1, 1, 1, 2, 2, 2, 2]).unwrap();
    let b = Picture::from_rgba(2, 1, vec![9, 9, 9, 9, 8, 8, 8, 8]).unwrap();
    let out = merge_images(a, ImageFormat::Png, b, ImageFormat::Png, "out.png".to_string())
        .unwrap();
    assert_eq!(out.width(), 2);
    assert_eq!(out.height(), 1);
    assert_eq!(out.name(), "out.png");
    assert_eq!(out.capacity(), 8);
    assert_eq!(out.state(), BufferState::Filled);
    assert_eq!(out.data(), &vec![1, 1, 1, 1, 8, 8, 8, 8]);
}

#[test]
fn merge_resizes_the_larger_image() {
    let a = Picture::from_rgba(4, 4, vec![200; 64]).unwrap();
    let b = Picture::from_rgba(2, 2, vec![50; 16]).unwrap();
    let out = merge_images(a, ImageFormat::Png, b, ImageFormat::Png, "o.png".to_string())
        .unwrap();
    assert_eq!((out.width(), out.height()), (2, 2));
    assert_eq!(
        out.data(),
        &vec![200, 200, 200, 200, 50, 50, 50, 50, 200, 200, 200, 200, 50, 50, 50, 50]
    );
}

#[test]
fn new_output_reserves_four_bytes_per_pixel() {
    let out = FloatingImage::new(956, 956, "x".to_string());
    assert_eq!(out.capacity(), 3_655_744);
    assert_eq!(out.state(), BufferState::Empty);
    assert!(out.data().is_empty());
    let big = FloatingImage::new(2000, 1000, "y".to_string());
    assert_eq!(big.capacity(), 8_000_000);
}

#[test]
fn oversized_buffer_is_refused() {
    let mut out = FloatingImage::new(2, 2, "x".to_string());
    assert_eq!(out.set_data(vec![0; 17]), Err(ImageDataErrors::BufferTooSmall));
    assert_eq!(out.state(), BufferState::Empty);
    assert!(out.data().is_empty());
}

#[test]
fn refusal_keeps_previous_buffer() {
    let mut out = FloatingImage::new(1, 2, "x".to_string());
    assert_eq!(out.set_data(vec![4; 8]), Ok(()));
    assert_eq!(out.set_data(vec![5; 9]), Err(ImageDataErrors::BufferTooSmall));
    assert_eq!(out.data(), &vec![4; 8]);
    assert_eq!(out.state(), BufferState::Filled);
}

#[test]
fn buffer_within_capacity_is_accepted() {
    let mut out = FloatingImage::new(2, 2, "x".to_string());
    assert_eq!(out.set_data(vec![1; 12]), Ok(()));
    assert_eq!(out.data(), &vec![1; 12]);
    assert_eq!(out.set_data(vec![2; 16]), Ok(()));
    assert_eq!(out.data(), &vec![2; 16]);
}

#[test]
fn decoding_twice_gives_the_same_picture() {
    let rgba: Vec<u8> = (0..24).collect();
    let bytes = png_bytes(3, 2, rgba.clone());
    let first = decode(&bytes, ImageFormat::Png).unwrap();
    let second = decode(&bytes, ImageFormat::Png).unwrap();
    assert_eq!(first.dimensions(), (3, 2));
    assert_eq!(first.dimensions(), second.dimensions());
    assert_eq!(first.rgba, rgba);
    assert_eq!(first.rgba, second.rgba);
}

#[test]
fn tga_is_decoded_in_the_given_format() {
    let rgba: Vec<u8> = (0..16).map(|i| i * 15).collect();
    let bytes = encoded(2, 2, rgba.clone(), image::ImageOutputFormat::Tga);
    let p = decode(&bytes, ImageFormat::Tga).unwrap();
    assert_eq!(p.dimensions(), (2, 2));
    assert_eq!(p.rgba, rgba);
}

#[test]
fn bytes_of_another_format_are_refused() {
    let bytes = png_bytes(2, 1, vec![1; 8]);
    assert_eq!(decode(&bytes, ImageFormat::Jpeg).err(), Some(ImageDataErrors::DecodeFailed));
}

#[test]
fn jpeg_decoding_twice_gives_the_same_picture() {
    let rgba: Vec<u8> = (0..64u32).map(|i| (i * 4) as u8).collect();
    let bytes = encoded(4, 4, rgba, image::ImageOutputFormat::Jpeg(90));
    let first = decode(&bytes, ImageFormat::Jpeg).unwrap();
    let second = decode(&bytes, ImageFormat::Jpeg).unwrap();
    assert_eq!(first.dimensions(), (4, 4));
    assert_eq!(first.rgba, second.rgba);
}

#[test]
fn every_format_has_an_extension_the_codec_knows() {
    let all = [
        ImageFormat::Png, ImageFormat::Jpeg, ImageFormat::Gif, ImageFormat::WebP,
        ImageFormat::Pnm, ImageFormat::Tiff, ImageFormat::Tga, ImageFormat::Dds,
        ImageFormat::Bmp, ImageFormat::Ico, ImageFormat::Hdr, ImageFormat::OpenExr,
        ImageFormat::Farbfeld, ImageFormat::Avif, ImageFormat::Qoi,
    ];
    for f in all {
        assert!(image::ImageFormat::from_extension(f.extension()).is_some());
    }
}
