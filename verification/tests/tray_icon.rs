use dashcat::icon::{
    bitmap_from_rgba, load_frame_bitmap, pack_argb, tint_pixel, tinted_pixels, IconAnimation, IconColor, IconError,
};

fn encode_png(width: u32, height: u32, rgba: &[u8]) -> Vec<u8> {
    let mut out = Vec::new();
    {
        let mut enc = png::Encoder::new(&mut out, width, height);
        enc.set_color(png::ColorType::Rgba);
        enc.set_depth(png::BitDepth::Eight);
        let mut w = enc.write_header().unwrap();
        w.write_image_data(rgba).unwrap();
    }
    out
}

#[test]
fn tints() {
    assert_eq!(tint_pixel(IconColor::Default, 10, 20, 30), (10, 20, 30));
    assert_eq!(tint_pixel(IconColor::Blue, 90, 31, 200), (30, 10, 255));
    assert_eq!(tint_pixel(IconColor::Blue, 90, 31, 100), (30, 10, 200));
    assert_eq!(tint_pixel(IconColor::Orange, 200, 9, 13), (255, 4, 3));
    assert_eq!(tint_pixel(IconColor::Orange, 100, 9, 13), (200, 4, 3));
}

#[test]
fn packing() {
    assert_eq!(pack_argb(0xFF, 0x11, 0x22, 0x33), 0xFF11_2233);
    assert_eq!(pack_argb(0, 0, 0, 1), 1);
}

#[test]
fn pixel_conversion() {
    let rgba = [1u8, 2, 3, 4, 90, 60, 200, 255];
    assert_eq!(tinted_pixels(&rgba, IconColor::Default), vec![0x0401_0203, 0xFF5A_3CC8]);
    assert_eq!(tinted_pixels(&rgba, IconColor::Blue), vec![0x0400_0067, 0xFF1E_14FF]);
    assert!(tinted_pixels(&[], IconColor::Orange).is_empty());
}

#[test]
fn partial_pixels_are_refused() {
    assert_eq!(bitmap_from_rgba(1, 1, &[1, 2, 3], IconColor::Default).err(), Some(IconError::PartialPixel));
    let bm = bitmap_from_rgba(1, 1, &[1, 2, 3, 4], IconColor::Default).unwrap();
    assert_eq!((bm.width, bm.height, bm.pixels), (1, 1, vec![0x0401_0203]));
}

#[test]
fn frames_decode_and_tint() {
    let f0 = encode_png(2, 1, &[255, 0, 0, 255, 0, 0, 255, 128]);
    let f1 = encode_png(1, 1, &[9, 9, 9, 9]);
    let frames: Vec<&[u8]> = vec![&f0, &f1, &f1, &f1, &f1[..10]];
    let bm = load_frame_bitmap(&frames, 0, IconColor::Default).unwrap();
    assert_eq!((bm.width, bm.height), (2, 1));
    assert_eq!(bm.pixels, vec![0xFFFF_0000, 0x8000_00FF]);
    let bm = load_frame_bitmap(&frames, 0, IconColor::Orange).unwrap();
    assert_eq!(bm.pixels, vec![0xFFFF_0000, 0x8064_003F]);
    let bm = load_frame_bitmap(&frames, 1, IconColor::Default).unwrap();
    assert_eq!(bm.pixels, vec![0x0909_0909]);
    // steps past the last frame show the last frame, here a broken one
    assert_eq!(load_frame_bitmap(&frames, 4, IconColor::Default).err(), Some(IconError::Decode));
    assert_eq!(load_frame_bitmap(&frames, 17, IconColor::Default).err(), Some(IconError::Decode));
}

#[test]
fn animation_cycles_through_five_frames() {
    let mut a = IconAnimation::new();
    assert_eq!(a.current_frame(), 0);
    let seen: Vec<usize> = (0..7).map(|_| a.advance()).collect();
    assert_eq!(seen, vec![1, 2, 3, 4, 0, 1, 2]);
    assert_eq!(a.color(), IconColor::Default);
    assert!(a.set_color(IconColor::Blue));
    assert!(!a.set_color(IconColor::Blue));
    assert_eq!(a.current_frame(), 2);
    assert_eq!(a.color(), IconColor::Blue);
}
