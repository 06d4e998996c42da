use overlay::icon::{icon_from_decoded, load_icon, DecodedImage, IconError, IconImage};

// Two rows of two pixels, 8-bit RGBA.
const RGBA_2X2_PNG: [u8; 79] = [
    0x89, 0x50, 0x4e, 0x47, 0x0d, 0x0a, 0x1a, 0x0a, 0x00, 0x00, 0x00, 0x0d,
    0x49, 0x48, 0x44, 0x52, 0x00, 0x00, 0x00, 0x02, 0x00, 0x00, 0x00, 0x02,
    0x08, 0x06, 0x00, 0x00, 0x00, 0x72, 0xb6, 0x0d, 0x24, 0x00, 0x00, 0x00,
    0x16, 0x49, 0x44, 0x41, 0x54, 0x78, 0xda, 0x63, 0xf8, 0xcf, 0xc0, 0xf0,
    0x1f, 0x08, 0x1b, 0x18, 0x40, 0x34, 0x97, 0x88, 0x9c, 0x06, 0x00, 0x36,
    0xa9, 0x04, 0xe1, 0x64, 0xdb, 0x4d, 0x7e, 0x00, 0x00, 0x00, 0x00, 0x49,
    0x45, 0x4e, 0x44, 0xae, 0x42, 0x60, 0x82,
];

// One pixel, 8-bit RGB without alpha.
const RGB_1X1_PNG: [u8; 69] = [
    0x89, 0x50, 0x4e, 0x47, 0x0d, 0x0a, 0x1a, 0x0a, 0x00, 0x00, 0x00, 0x0d,
    0x49, 0x48, 0x44, 0x52, 0x00, 0x00, 0x00, 0x01, 0x00, 0x00, 0x00, 0x01,
    0x08, 0x02, 0x00, 0x00, 0x00, 0x90, 0x77, 0x53, 0xde, 0x00, 0x00, 0x00,
    0x0c, 0x49, 0x44, 0x41, 0x54, 0x78, 0xda, 0x63, 0x60, 0x64, 0x62, 0x06,
    0x00, 0x00, 0x0e, 0x00, 0x07, 0xe9, 0x92, 0x37, 0xd4, 0x00, 0x00, 0x00,
    0x00, 0x49, 0x45, 0x4e, 0x44, 0xae, 0x42, 0x60, 0x82,
];

fn error_of(r: Result<IconImage, IconError>) -> IconError {
    match r {
        Ok(_) => panic!("an icon came back"),
        Err(e) => e,
    }
}

#[test]
fn from_rgba_keeps_pixels_and_size() {
    let pixels = vec![1, 2, 3, 4, 5, 6, 7, 8, 9, 10, 11, 12];
    let icon = IconImage::from_rgba(pixels.clone(), 3, 1).ok().expect("three pixels in a row");
    assert_eq!(icon.rgba(), &pixels);
    assert_eq!(icon.width(), 3);
    assert_eq!(icon.height(), 1);
}

#[test]
fn from_rgba_accepts_the_empty_icon() {
    let icon = IconImage::from_rgba(Vec::new(), 0, 7).ok().expect("no pixels, no area");
    assert_eq!(icon.rgba().len(), 0);
    assert_eq!(icon.width(), 0);
    assert_eq!(icon.height(), 7);
}

#[test]
fn from_rgba_rejects_a_torn_pixel() {
    let e = error_of(IconImage::from_rgba(vec![0; 7], 1, 1));
    assert_eq!(e, IconError::ByteCountNotDivisibleBy4 { byte_count: 7 });
}

#[test]
fn from_rgba_rejects_a_wrong_pixel_count() {
    let e = error_of(IconImage::from_rgba(vec![0; 8], 3, 1));
    assert_eq!(e, IconError::DimensionsVsPixelCount { width: 3, height: 1, pixel_count: 2 });
}

#[test]
fn from_rgba_checks_divisibility_before_the_count() {
    let e = error_of(IconImage::from_rgba(vec![0; 5], 9, 9));
    assert_eq!(e, IconError::ByteCountNotDivisibleBy4 { byte_count: 5 });
}

#[test]
fn from_rgba_does_not_wrap_a_huge_area() {
    // 65536 * 65536 is 2^32, which is 0 in 32 bits; no pixels do not fill it.
    let e = error_of(IconImage::from_rgba(Vec::new(), 65_536, 65_536));
    assert_eq!(
        e,
        IconError::DimensionsVsPixelCount { width: 65_536, height: 65_536, pixel_count: 0 }
    );
}

#[test]
fn load_icon_decodes_rgba_pixels() {
    let icon = load_icon(&RGBA_2X2_PNG).ok().expect("a valid image");
    assert_eq!(icon.width(), 2);
    assert_eq!(icon.height(), 2);
    assert_eq!(
        icon.rgba(),
        &vec![255, 0, 0, 255, 0, 255, 0, 128, 0, 0, 255, 0, 10, 20, 30, 40]
    );
}

#[test]
fn load_icon_adds_an_opaque_alpha_channel() {
    let icon = load_icon(&RGB_1X1_PNG).ok().expect("a valid image");
    assert_eq!(icon.width(), 1);
    assert_eq!(icon.height(), 1);
    assert_eq!(icon.rgba(), &vec![1, 2, 3, 255]);
}

#[test]
fn load_icon_rejects_what_is_no_image() {
    assert_eq!(error_of(load_icon(b"not an image")), IconError::Undecodable);
    assert_eq!(error_of(load_icon(&[])), IconError::Undecodable);
}

#[test]
fn load_icon_rejects_a_truncated_image() {
    assert_eq!(error_of(load_icon(&RGBA_2X2_PNG[..40])), IconError::Undecodable);
}

#[test]
fn decoded_samples_become_the_icon() {
    let decoded = DecodedImage { rgba: vec![1, 2, 3, 4, 5, 6, 7, 8], width: 1, height: 2 };
    let icon = icon_from_decoded(Ok(decoded)).ok().expect("two pixels in a column");
    assert_eq!(icon.rgba(), &vec![1, 2, 3, 4, 5, 6, 7, 8]);
    assert_eq!((icon.width(), icon.height()), (1, 2));
}

#[test]
fn decoded_samples_are_counted_against_the_size() {
    let decoded = DecodedImage { rgba: vec![0; 12], width: 2, height: 2 };
    assert_eq!(
        error_of(icon_from_decoded(Ok(decoded))),
        IconError::DimensionsVsPixelCount { width: 2, height: 2, pixel_count: 3 }
    );
    let decoded = DecodedImage { rgba: vec![0; 6], width: 1, height: 1 };
    assert_eq!(
        error_of(icon_from_decoded(Ok(decoded))),
        IconError::ByteCountNotDivisibleBy4 { byte_count: 6 }
    );
}

#[test]
fn a_decoder_error_means_no_icon() {
    let refusal = image::load_from_memory(b"no image").err().expect("nothing to decode");
    assert_eq!(error_of(icon_from_decoded(Err(refusal))), IconError::Undecodable);
}
