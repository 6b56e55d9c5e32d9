use win7_notifications::icon::{get_hicon_from_32bpp_rgba, IconImage, PIXEL_SIZE};

#[test]
fn opaque_two_by_two_icon() {
    let rgba: Vec<u8> = vec![
        10, 20, 30, 255, 40, 50, 60, 255, 70, 80, 90, 255, 100, 110, 120, 255,
    ];
    let image = get_hicon_from_32bpp_rgba(rgba, 2, 2);
    assert_eq!(image.and_mask, vec![0, 0, 0, 0]);
    assert_eq!(
        image.color,
        vec![30, 20, 10, 255, 60, 50, 40, 255, 90, 80, 70, 255, 120, 110, 100, 255]
    );
    assert_eq!(image.width, 2);
    assert_eq!(image.height, 2);
    assert_eq!(image.planes, 1);
    assert_eq!(image.bits_per_pixel, 32);
}

#[test]
fn mask_is_the_inverted_alpha() {
    let rgba: Vec<u8> = vec![1, 2, 3, 0, 1, 2, 3, 1, 1, 2, 3, 128, 1, 2, 3, 254, 1, 2, 3, 255];
    let image = get_hicon_from_32bpp_rgba(rgba, 5, 1);
    assert_eq!(image.and_mask, vec![255, 254, 127, 1, 0]);
}

#[test]
fn transparent_pixel_sets_every_mask_bit() {
    let image = get_hicon_from_32bpp_rgba(vec![10, 20, 30, 0], 1, 1);
    assert_eq!(image.and_mask, vec![255]);
    assert_eq!(image.color, vec![30, 20, 10, 0]);
}

#[test]
fn conversion_keeps_green_and_alpha() {
    let image = get_hicon_from_32bpp_rgba(vec![9, 8, 7, 6], 1, 1);
    assert_eq!(
        image,
        IconImage {
            width: 1,
            height: 1,
            planes: 1,
            bits_per_pixel: 32,
            and_mask: vec![249],
            color: vec![7, 8, 9, 6],
        }
    );
}

#[test]
fn empty_buffer_gives_empty_planes() {
    let image = get_hicon_from_32bpp_rgba(Vec::new(), 0, 0);
    assert!(image.and_mask.is_empty());
    assert!(image.color.is_empty());
}

#[test]
fn bytes_after_the_last_whole_pixel_are_kept() {
    let image = get_hicon_from_32bpp_rgba(vec![1, 2, 3, 255, 4, 5, 6], 1, 1);
    assert_eq!(image.and_mask, vec![0]);
    assert_eq!(image.color, vec![3, 2, 1, 255, 4, 5, 6]);
    let short = get_hicon_from_32bpp_rgba(vec![1, 2, 3], 1, 1);
    assert!(short.and_mask.is_empty());
    assert_eq!(short.color, vec![1, 2, 3]);
}

#[test]
fn converting_twice_restores_the_colours() {
    let rgba: Vec<u8> = (0..64).collect();
    let once = get_hicon_from_32bpp_rgba(rgba.clone(), 4, 4);
    assert_ne!(once.color, rgba);
    let twice = get_hicon_from_32bpp_rgba(once.color, 4, 4);
    assert_eq!(twice.color, rgba);
    assert_eq!(twice.and_mask, once.and_mask);
    assert_eq!(once.and_mask.len(), 64 / PIXEL_SIZE);
}
