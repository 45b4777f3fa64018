use down2earth::raster::Raster;

fn gradient(width: u32, height: u32) -> Vec<u8> {
    let mut data = Vec::new();
    for j in 0..height {
        for i in 0..width {
            data.push((i % 251) as u8);
            data.push((j % 241) as u8);
            data.push(((i + 3 * j) % 239) as u8);
        }
    }
    data
}

fn encoded(picture: image::DynamicImage, format: image::ImageFormat) -> Vec<u8> {
    let mut out = std::io::Cursor::new(Vec::new());
    picture.write_to(&mut out, format).unwrap();
    out.into_inner()
}

#[test]
fn from_raw_takes_exactly_three_samples_per_pixel() {
    let r = Raster::from_raw(2, 3, gradient(2, 3)).unwrap();
    assert_eq!(r.width(), 2);
    assert_eq!(r.height(), 3);
    assert_eq!(r.as_raw(), &gradient(2, 3));
}

#[test]
fn from_raw_refuses_a_short_buffer() {
    assert!(Raster::from_raw(2, 3, vec![0; 17]).is_none());
    assert!(Raster::from_raw(1, 1, vec![]).is_none());
    assert!(Raster::from_raw(u32::MAX, u32::MAX, vec![0; 64]).is_none());
}

#[test]
fn from_raw_drops_samples_beyond_the_last_pixel() {
    let mut data = gradient(2, 2);
    data.extend_from_slice(&[9, 9, 9, 9]);
    let r = Raster::from_raw(2, 2, data).unwrap();
    assert_eq!(r.into_raw(), gradient(2, 2));
}

#[test]
fn from_raw_accepts_an_empty_raster() {
    let r = Raster::from_raw(0, 5, vec![1, 2, 3]).unwrap();
    assert_eq!(r.width(), 0);
    assert_eq!(r.height(), 5);
    assert!(r.as_raw().is_empty());
    assert_eq!(r.pixel(0, 0), None);
}

#[test]
fn pixels_are_stored_row_after_row() {
    let r = Raster::from_raw(2, 2, vec![1, 2, 3, 4, 5, 6, 7, 8, 9, 10, 11, 12]).unwrap();
    assert_eq!(r.pixel(0, 0), Some((1, 2, 3)));
    assert_eq!(r.pixel(1, 0), Some((4, 5, 6)));
    assert_eq!(r.pixel(0, 1), Some((7, 8, 9)));
    assert_eq!(r.pixel(1, 1), Some((10, 11, 12)));
    assert_eq!(r.pixel(2, 0), None);
    assert_eq!(r.pixel(0, 2), None);
}

#[test]
fn blank_raster_is_zero_everywhere() {
    let r = Raster::blank(7, 5);
    assert_eq!(r.width(), 7);
    assert_eq!(r.height(), 5);
    assert_eq!(r.as_raw(), &vec![0u8; 105]);
}

#[test]
fn overlay_copies_the_top_raster_at_the_offset() {
    let mut bottom = Raster::blank(4, 3);
    let top = Raster::from_raw(2, 2, vec![1, 2, 3, 4, 5, 6, 7, 8, 9, 10, 11, 12]).unwrap();
    bottom.overlay(&top, 1, 1);
    assert_eq!(bottom.width(), 4);
    assert_eq!(bottom.height(), 3);
    for j in 0..3u32 {
        for i in 0..4u32 {
            let expected = if (1..3).contains(&i) && (1..3).contains(&j) {
                top.pixel(i - 1, j - 1)
            } else {
                Some((0, 0, 0))
            };
            assert_eq!(bottom.pixel(i, j), expected);
        }
    }
}

#[test]
fn overlay_replaces_what_was_there() {
    let mut bottom = Raster::from_raw(2, 1, vec![200, 201, 202, 203, 204, 205]).unwrap();
    let top = Raster::from_raw(1, 1, vec![1, 2, 3]).unwrap();
    bottom.overlay(&top, 1, 0);
    assert_eq!(bottom.into_raw(), vec![200, 201, 202, 1, 2, 3]);
}

#[test]
fn overlay_drops_what_falls_outside() {
    let mut bottom = Raster::blank(3, 3);
    let top = Raster::from_raw(2, 2, vec![1, 2, 3, 4, 5, 6, 7, 8, 9, 10, 11, 12]).unwrap();
    bottom.overlay(&top, 2, 2);
    assert_eq!(bottom.pixel(2, 2), Some((1, 2, 3)));
    let touched = bottom.as_raw().iter().filter(|s| **s != 0).count();
    assert_eq!(touched, 3);
}

#[test]
fn overlay_beyond_the_raster_changes_nothing() {
    let mut bottom = Raster::from_raw(2, 2, gradient(2, 2)).unwrap();
    let top = Raster::from_raw(1, 1, vec![255, 255, 255]).unwrap();
    bottom.overlay(&top, 2, 0);
    bottom.overlay(&top, 0, 2);
    bottom.overlay(&top, u32::MAX, u32::MAX);
    assert_eq!(bottom.into_raw(), gradient(2, 2));
}

#[test]
fn overlay_of_a_larger_raster_fills_the_bottom() {
    let mut bottom = Raster::blank(2, 2);
    let top = Raster::from_raw(5, 4, gradient(5, 4)).unwrap();
    bottom.overlay(&top, 0, 0);
    for j in 0..2 {
        for i in 0..2 {
            assert_eq!(bottom.pixel(i, j), top.pixel(i, j));
        }
    }
}

#[test]
fn decode_reads_back_an_encoded_png() {
    let picture = image::RgbImage::from_raw(5, 4, gradient(5, 4)).unwrap();
    let bytes = encoded(image::DynamicImage::ImageRgb8(picture), image::ImageFormat::Png);
    let r = Raster::decode(&bytes).unwrap();
    assert_eq!(r.width(), 5);
    assert_eq!(r.height(), 4);
    assert_eq!(r.into_raw(), gradient(5, 4));
}

#[test]
fn decode_is_not_the_identity_on_bytes() {
    let picture = image::RgbImage::from_raw(3, 3, gradient(3, 3)).unwrap();
    let bytes = encoded(image::DynamicImage::ImageRgb8(picture), image::ImageFormat::Png);
    let r = Raster::decode(&bytes).unwrap();
    assert_ne!(r.as_raw(), &bytes);
    assert_eq!(r.as_raw().len(), 27);
}

#[test]
fn decode_drops_the_alpha_channel() {
    let picture = image::RgbaImage::from_raw(2, 1, vec![10, 20, 30, 40, 50, 60, 70, 80]).unwrap();
    let bytes = encoded(image::DynamicImage::ImageRgba8(picture), image::ImageFormat::Png);
    let r = Raster::decode(&bytes).unwrap();
    assert_eq!(r.into_raw(), vec![10, 20, 30, 50, 60, 70]);
}

#[test]
fn decode_spreads_gray_over_three_channels() {
    let picture = image::GrayImage::from_raw(2, 2, vec![0, 100, 200, 255]).unwrap();
    let bytes = encoded(image::DynamicImage::ImageLuma8(picture), image::ImageFormat::Png);
    let r = Raster::decode(&bytes).unwrap();
    assert_eq!(r.pixel(0, 0), Some((0, 0, 0)));
    assert_eq!(r.pixel(1, 0), Some((100, 100, 100)));
    assert_eq!(r.pixel(0, 1), Some((200, 200, 200)));
    assert_eq!(r.pixel(1, 1), Some((255, 255, 255)));
}

#[test]
fn decode_reads_sixteen_bit_png() {
    let picture = image::ImageBuffer::<image::Rgb<u16>, Vec<u16>>::from_raw(
        1,
        2,
        vec![0, 257, 65535, 32896, 514, 65278],
    )
    .unwrap();
    let bytes = encoded(image::DynamicImage::ImageRgb16(picture), image::ImageFormat::Png);
    let r = Raster::decode(&bytes).unwrap();
    assert_eq!((r.width(), r.height()), (1, 2));
    assert_eq!(r.into_raw(), vec![0, 1, 255, 128, 2, 254]);
}

#[test]
fn decode_refuses_other_formats_than_png() {
    let jpeg_start = [0xff, 0xd8, 0xff, 0xe0, 0x00, 0x10, b'J', b'F', b'I', b'F', 0x00];
    assert!(Raster::decode(&jpeg_start).is_none());
    assert!(Raster::decode(b"GIF89a\x01\x00\x01\x00\x00\x00\x00;").is_none());
    assert!(Raster::decode(b"BM\x1e\x00\x00\x00\x00\x00\x00\x00").is_none());
}

#[test]
fn decode_refuses_what_is_no_image() {
    assert!(Raster::decode(b"").is_none());
    assert!(Raster::decode(b"<html>Service Unavailable</html>").is_none());
    assert!(Raster::decode(&[0x89, b'P', b'N', b'G', 0x0d, 0x0a, 0x1a, 0x0a]).is_none());
}

#[test]
fn decode_refuses_a_truncated_png() {
    let picture = image::RgbImage::from_raw(64, 64, gradient(64, 64)).unwrap();
    let bytes = encoded(image::DynamicImage::ImageRgb8(picture), image::ImageFormat::Png);
    assert!(Raster::decode(&bytes[..bytes.len() / 2]).is_none());
}

#[test]
fn decoding_the_same_bytes_twice_gives_the_same_raster() {
    let picture = image::RgbImage::from_raw(9, 7, gradient(9, 7)).unwrap();
    let bytes = encoded(image::DynamicImage::ImageRgb8(picture), image::ImageFormat::Png);
    let first = Raster::decode(&bytes).unwrap();
    let second = Raster::decode(&bytes).unwrap();
    assert_eq!(first.as_raw(), second.as_raw());
    assert_eq!((first.width(), first.height()), (second.width(), second.height()));
}
