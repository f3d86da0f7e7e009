use combiner::combine::{alternate_pixels, combine_images, set_rgba};
use combiner::picture::Picture;

#[test]
fn alternation_takes_even_blocks_from_first() {
    let a = vec![1, 1, 1, 1, 2, 2, 2, 2];
    let b = vec![9, 9, 9, 9, 8, 8, 8, 8];
    assert_eq!(alternate_pixels(a, b), vec![1, 1, 1, 1, 8, 8, 8, 8]);
}

#[test]
fn alternation_over_many_blocks() {
    let a: Vec<u8> = (0..24).collect();
    let b: Vec<u8> = (100..124).collect();
    let r = alternate_pixels(a.clone(), b.clone());
    for i in 0..6 {
        let src = if i % 2 == 0 { &a } else { &b };
        assert_eq!(&r[4 * i..4 * i + 4], &src[4 * i..4 * i + 4]);
    }
}

#[test]
fn combined_length_equals_input_length() {
    for blocks in 0..9usize {
        let a = vec![3u8; blocks * 4];
        let b = vec![7u8; blocks * 4];
        assert_eq!(alternate_pixels(a, b).len(), blocks * 4);
    }
}

#[test]
fn combining_empty_buffers_gives_empty_buffer() {
    assert_eq!(alternate_pixels(Vec::new(), Vec::new()), Vec::<u8>::new());
}

#[test]
fn set_rgba_copies_inclusive_range() {
    let v = vec![10, 11, 12, 13, 14, 15, 16, 17];
    assert_eq!(set_rgba(&v, 4, 7), vec![14, 15, 16, 17]);
    assert_eq!(set_rgba(&v, 0, 0), vec![10]);
}

#[test]
fn set_rgba_empty_range_gives_empty_buffer() {
    let v = vec![10, 11, 12];
    assert_eq!(set_rgba(&v, 2, 1), Vec::<u8>::new());
    assert_eq!(set_rgba(&v, 9, 4), Vec::<u8>::new());
}

#[test]
fn combine_images_interleaves_pictures() {
    let p1 = Picture::from_rgba(3, 1, vec![1, 1, 1, 1, 2, 2, 2, 2, 3, 3, 3, 3]).unwrap();
    let p2 = Picture::from_rgba(3, 1, vec![7, 7, 7, 7, 8, 8, 8, 8, 9, 9, 9, 9]).unwrap();
    assert_eq!(
        combine_images(p1, p2),
        vec![1, 1, 1, 1, 8, 8, 8, 8, 3, 3, 3, 3]
    );
}
