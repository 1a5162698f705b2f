use flower2d::{CodecError, EncodeFormat, Image};

fn patterned_8x8() -> Image {
    let mut img = Image::new(8, 8);
    for y in 0..8u32 {
        for x in 0..8u32 {
            img.set(
                x,
                y,
                (
                    (x * 31 + y) as u8,
                    (x * 7 + y * 3) as u8,
                    (x + y * 29) as u8,
                    (255 - x * 2 - y) as u8,
                ),
            );
        }
    }
    img
}

#[test]
fn png_roundtrip_is_lossless() {
    let img = patterned_8x8();
    let encoded = img.encode(EncodeFormat::Png).unwrap();
    // A PNG stream starts with the fixed signature, so the encoder really ran.
    assert_eq!(&encoded[0..8], &[0x89, b'P', b'N', b'G', b'\r', b'\n', 0x1A, b'\n']);
    let decoded = Image::load_from_memory(&encoded).unwrap();
    assert_eq!(decoded.width(), 8);
    assert_eq!(decoded.height(), 8);
    for y in 0..8 {
        for x in 0..8 {
            assert_eq!(decoded.at(x, y), img.at(x, y));
        }
    }
    assert_eq!(decoded.as_bytes(), img.as_bytes());
}

#[test]
fn decode_garbage_is_an_error() {
    let garbage: Vec<u8> = vec![3, 141, 59, 26, 53, 58, 97, 93, 23, 84];
    match Image::load_from_memory(&garbage) {
        Err(CodecError::Decode) => {}
        other => panic!("expected a decode error, got {:?}", other.map(|i| i.width())),
    }
}

#[test]
fn decode_empty_is_an_error() {
    let r = Image::load_from_memory(&[]);
    assert!(matches!(r, Err(CodecError::Decode)));
}

#[test]
fn encode_rejects_unsupported_format() {
    // The EXR encoder takes floating-point pixels only, so RGBA8 input is
    // reported as an encode error rather than written.
    let img = patterned_8x8();
    let r = img.encode(EncodeFormat::Exr);
    assert!(matches!(r, Err(CodecError::Encode)));
}

#[test]
fn png_roundtrip_keeps_orientation() {
    let mut img = Image::new(3, 1);
    img.set(0, 0, (255, 0, 0, 255));
    img.set(1, 0, (0, 255, 0, 255));
    img.set(2, 0, (0, 0, 255, 128));
    let encoded = img.encode(EncodeFormat::Png).unwrap();
    let decoded = Image::load_from_memory(&encoded).unwrap();
    assert_eq!(decoded.width(), 3);
    assert_eq!(decoded.height(), 1);
    assert_eq!(decoded.at(0, 0), (255, 0, 0, 255));
    assert_eq!(decoded.at(1, 0), (0, 255, 0, 255));
    assert_eq!(decoded.at(2, 0), (0, 0, 255, 128));
}
