use webds::cap::Error;
use webds::encode::{Encoded, FrameEncoder, YuvFrame};

#[test]
fn black_and_white_frames_convert_to_yuv() {
    let mut rgb = Vec::new();
    let frame = YuvFrame::from_xrgb(&mut rgb, &[0u8; 16], 2, 2);
    assert_eq!(rgb, vec![0u8; 12]);
    assert_eq!(frame.bytes(), &[16, 16, 16, 16, 128, 128]);
    assert_eq!((frame.width(), frame.height()), (2, 2));

    let frame = YuvFrame::from_xrgb(&mut rgb, &[255u8; 32], 4, 2);
    assert_eq!(rgb, vec![255u8; 24]);
    assert_eq!(frame.bytes(), &[235, 235, 235, 235, 235, 235, 235, 235, 128, 128, 128, 128]);
}

#[test]
fn pixel_bytes_are_reordered_before_conversion() {
    // A blue pixel in XRGB8888 memory order is [255, 0, 0, 0].
    let mut rgb = Vec::new();
    let pixels = [255u8, 0, 0, 0].repeat(4);
    let frame = YuvFrame::from_xrgb(&mut rgb, &pixels, 2, 2);
    assert_eq!(rgb, [0u8, 0, 255].repeat(4));
    assert_ne!(frame.bytes()[4], 128);
}

#[test]
fn encoder_makes_a_key_frame_first_and_passes_capture_failures_on() {
    let mut encoder = FrameEncoder::new().unwrap();
    let mut rgb = Vec::new();
    let frame = YuvFrame::from_xrgb(&mut rgb, &vec![100u8; 16 * 16 * 4], 16, 16);
    let (forced, encoded) = encoder.encode_next(false, Ok(frame));
    assert!(forced);
    match encoded {
        Encoded::Nal(nal) => assert!(!nal.is_empty()),
        Encoded::CaptureFailed(_) => panic!("capture failure"),
        Encoded::EncoderFailed(e) => panic!("{e:?}"),
    }
    let (forced, encoded) = encoder.encode_next(false, Err(Error::NoFrame));
    assert!(forced);
    assert!(matches!(encoded, Encoded::CaptureFailed(Error::NoFrame)));
}

/// The conversion formula, written out for the test: XRGB8888 pixels in
/// memory order (blue, green, red, unused) to the Y, U and V planes.
fn expected_yuv(pixels: &[u8], w: usize, h: usize) -> Vec<u8> {
    let ch = |row: usize, col: usize, c: usize| -> i32 {
        let p = &pixels[4 * (row * w + col)..];
        [p[2], p[1], p[0]][c] as i32
    };
    let mut out = Vec::new();
    for row in 0..h {
        for col in 0..w {
            let (r, g, b) = (ch(row, col, 0), ch(row, col, 1), ch(row, col, 2));
            out.push((((66 * r + 129 * g + 25 * b) >> 8) + 16) as u8);
        }
    }
    let avg = |by: usize, bx: usize, c: usize| {
        (ch(2 * by, 2 * bx, c) + ch(2 * by, 2 * bx + 1, c) + ch(2 * by + 1, 2 * bx, c)
            + ch(2 * by + 1, 2 * bx + 1, c)
            + 2)
            / 4
    };
    let mut u = Vec::new();
    let mut v = Vec::new();
    for by in 0..h / 2 {
        for bx in 0..w / 2 {
            let (r, g, b) = (avg(by, bx, 0), avg(by, bx, 1), avg(by, bx, 2));
            u.push((((-38 * r - 74 * g + 112 * b) >> 8) + 128) as u8);
            v.push((((112 * r - 94 * g - 18 * b) >> 8) + 128) as u8);
        }
    }
    out.extend(u);
    out.extend(v);
    out
}

#[test]
fn conversion_follows_the_integer_formula() {
    for (w, h) in [(2usize, 2usize), (4, 6), (32, 4), (64, 2), (130, 4)] {
        let pixels: Vec<u8> = (0..w * h * 4).map(|i| ((i * 97 + i / 3 * 31) % 256) as u8).collect();
        let mut rgb = Vec::new();
        let frame = YuvFrame::from_xrgb(&mut rgb, &pixels, w, h);
        assert_eq!(frame.bytes(), expected_yuv(&pixels, w, h).as_slice(), "{w}x{h}");
    }
}
