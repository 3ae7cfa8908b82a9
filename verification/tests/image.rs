use rnm_3d::image::{CodecError, PIXELS_MAX};
use rnm_3d::Image;

fn rgb_2x2() -> Vec<u8> {
    vec![255, 0, 0, 0, 255, 0, 0, 0, 255, 10, 20, 30]
}

fn rgba_2x1() -> Vec<u8> {
    vec![1, 2, 3, 4, 250, 251, 252, 253]
}

#[test]
fn new_keeps_its_arguments() {
    let image = Image::new(3, 5, vec![1, 2, 3]);
    assert_eq!(image.width(), 3);
    assert_eq!(image.height(), 5);
    assert_eq!(image.data(), &[1, 2, 3]);
}

#[test]
fn from_raw_encodes_rgb() {
    let raw = rgb_2x2();
    let image = Image::from_raw(2, 2, &raw).unwrap();
    assert_eq!(image.width(), 2);
    assert_eq!(image.height(), 2);
    assert_ne!(image.data(), raw.as_slice());
    assert_eq!(&image.data()[..4], b"qoif");
    assert_eq!(image.data(), qoi::encode_to_vec(&raw, 2, 2).unwrap().as_slice());
    assert_eq!(image.decode(), Ok(raw));
}

#[test]
fn from_raw_encodes_rgba() {
    let raw = rgba_2x1();
    let image = Image::from_raw(2, 1, &raw).unwrap();
    assert_eq!(image.decode(), Ok(raw));
}

#[test]
fn from_raw_refuses_empty_dimensions() {
    assert_eq!(Image::from_raw(0, 2, &rgb_2x2()), Err(CodecError::InvalidImageDimensions));
    assert_eq!(Image::from_raw(2, 0, &rgb_2x2()), Err(CodecError::InvalidImageDimensions));
    assert_eq!(Image::from_raw(0, 0, &[]), Err(CodecError::InvalidImageDimensions));
}

#[test]
fn from_raw_refuses_too_many_pixels() {
    assert_eq!(PIXELS_MAX, 400_000_000);
    assert_eq!(Image::from_raw(20_001, 20_000, &[]), Err(CodecError::InvalidImageDimensions));
    assert_eq!(
        Image::from_raw(u32::MAX, u32::MAX, &rgb_2x2()),
        Err(CodecError::InvalidImageDimensions)
    );
}

#[test]
fn from_raw_refuses_a_length_that_is_no_multiple_of_the_pixels() {
    let raw = rgb_2x2();
    assert_eq!(Image::from_raw(2, 2, &raw[..11]), Err(CodecError::InvalidImageLength));
    assert_eq!(Image::from_raw(5, 1, &raw), Err(CodecError::InvalidImageLength));
}

#[test]
fn from_raw_refuses_other_channel_counts() {
    assert_eq!(Image::from_raw(2, 2, &[0; 8]), Err(CodecError::InvalidChannels));
    assert_eq!(Image::from_raw(2, 2, &[0; 20]), Err(CodecError::InvalidChannels));
    assert_eq!(Image::from_raw(2, 2, &[]), Err(CodecError::InvalidChannels));
    assert_eq!(Image::from_raw(1, 1, &[0; 1]), Err(CodecError::InvalidChannels));
}

#[test]
fn decode_refuses_bytes_that_are_no_image() {
    assert_eq!(Image::new(1, 1, vec![]).decode(), Err(CodecError::UnexpectedBufferEnd));
    let mut data = Image::from_raw(2, 2, &rgb_2x2()).unwrap().data().to_vec();
    data[0] = b'x';
    assert_eq!(Image::new(2, 2, data).decode(), Err(CodecError::InvalidMagic));
    let mut data = Image::from_raw(2, 2, &rgb_2x2()).unwrap().data().to_vec();
    data[12] = 7;
    assert_eq!(Image::new(2, 2, data).decode(), Err(CodecError::InvalidChannels));
    let mut data = Image::from_raw(2, 2, &rgb_2x2()).unwrap().data().to_vec();
    data[13] = 9;
    assert_eq!(Image::new(2, 2, data).decode(), Err(CodecError::InvalidColorSpace));
    let mut data = Image::from_raw(2, 2, &rgb_2x2()).unwrap().data().to_vec();
    let last = data.len() - 1;
    data[last] = 0;
    assert_eq!(Image::new(2, 2, data).decode(), Err(CodecError::InvalidPadding));
}

#[test]
fn decode_goes_by_the_encoded_bytes_not_by_the_fields() {
    let data = Image::from_raw(2, 2, &rgb_2x2()).unwrap().data().to_vec();
    assert_eq!(Image::new(99, 1, data).decode(), Ok(rgb_2x2()));
}
