//! H.264 encoding of captured frames with OpenH264: the conversion of a frame
//! to the encoder's YUV 4:2:0 input, and one step of the encoder thread, which
//! follows the key-frame schedule.

use vstd::prelude::*;
use openh264::encoder::{BitRate, Encoder, EncoderConfig};
use openh264::formats::{RgbSliceU8, YUVBuffer, YUVSource};
use openh264::OpenH264API;
use openh264::Error as OpenH264Error;
use crate::cap;
use crate::cap::{fill_rgb, intra_step, rgb_of_xrgb, IntraRefresh, INTRA_CNT};

verus! {

#[verifier::external_type_specification]
#[verifier::external_body]
pub struct ExEncoder(Encoder);

#[verifier::external_type_specification]
#[verifier::external_body]
pub struct ExOpenH264Error(OpenH264Error);

/// The target bit rate of the stream: 50 MiB per second.
pub const BITRATE_BPS: u32 = 52428800;

/// The byte of channel `c` (0 red, 1 green, 2 blue) of the pixel at `row`
/// and `col` of an RGB image `w` pixels wide.
pub open spec fn rgb_at(rgb: Seq<u8>, w: int, row: int, col: int, c: int) -> int {
    rgb[3 * (row * w + col) + c] as int
}

/// OpenH264's luma of a pixel: `((66 r + 129 g + 25 b) >> 8) + 16`.
pub open spec fn luma(r: int, g: int, b: int) -> u8 {
    ((66 * r + 129 * g + 25 * b) / 256 + 16) as u8
}

/// The rounded average of channel `c` over the 2 by 2 block of pixels at
/// block column `bx` and block row `by`: `(a + b + c + d + 2) / 4`.
pub open spec fn block_average(rgb: Seq<u8>, w: int, bx: int, by: int, c: int) -> int {
    (rgb_at(rgb, w, 2 * by, 2 * bx, c) + rgb_at(rgb, w, 2 * by, 2 * bx + 1, c) + rgb_at(
        rgb,
        w,
        2 * by + 1,
        2 * bx,
        c,
    ) + rgb_at(rgb, w, 2 * by + 1, 2 * bx + 1, c) + 2) / 4
}

/// OpenH264's blue-difference chroma of averaged channels:
/// `((-38 r - 74 g + 112 b) >> 8) + 128`, the shift rounding down.
pub open spec fn chroma_u(r: int, g: int, b: int) -> u8 {
    ((-38 * r - 74 * g + 112 * b) / 256 + 128) as u8
}

/// OpenH264's red-difference chroma of averaged channels:
/// `((112 r - 94 g - 18 b) >> 8) + 128`, the shift rounding down.
pub open spec fn chroma_v(r: int, g: int, b: int) -> u8 {
    ((112 * r - 94 * g - 18 * b) / 256 + 128) as u8
}

/// OpenH264's RGB to YUV 4:2:0 conversion of an image of `width` by `height`
/// RGB pixels: the Y plane, a luma byte per pixel in row order; then the U
/// plane and the V plane, a chroma byte per 2 by 2 block in row order.
pub open spec fn yuv420_of_rgb8(rgb: Seq<u8>, width: usize, height: usize) -> Seq<u8> {
    let w = width as int;
    let n = w * height;
    let hw = w / 2;
    Seq::new(
        n as nat,
        |k: int| luma(rgb_at(rgb, w, k / w, k % w, 0), rgb_at(rgb, w, k / w, k % w, 1), rgb_at(rgb, w, k / w, k % w, 2)),
    ) + Seq::new(
        (n / 4) as nat,
        |k: int|
            chroma_u(
                block_average(rgb, w, k % hw, k / hw, 0),
                block_average(rgb, w, k % hw, k / hw, 1),
                block_average(rgb, w, k % hw, k / hw, 2),
            ),
    ) + Seq::new(
        (n / 4) as nat,
        |k: int|
            chroma_v(
                block_average(rgb, w, k % hw, k / hw, 0),
                block_average(rgb, w, k % hw, k / hw, 1),
                block_average(rgb, w, k % hw, k / hw, 2),
            ),
    )
}

proof fn lemma_yuv420_len(width: usize, height: usize)
    requires
        width % 2 == 0,
        height % 2 == 0,
    ensures
        (width * height) + 2 * ((width * height) / 4) == 3 * (width * height) / 2,
{
    let a = width / 2;
    let b = height / 2;
    assert(width * height == 4 * (a * b)) by (nonlinear_arith)
        requires
            width == 2 * a,
            height == 2 * b,
    ;
}

/// `YUVBuffer::from_rgb8_source` on `RgbSliceU8::new(rgb, (width, height))`,
/// with the planes of the result laid end to end. Claimed: the result is
/// [`yuv420_of_rgb8`], the integer formula of OpenH264's portable conversion
/// (`formats/arch/scalar.rs`), which its AVX2 conversion computes too. Both
/// constructors panic on odd dimensions or a slice of the wrong length, which
/// `requires` rules out.
#[verifier::external_body]
fn rgb8_to_yuv420(rgb: &[u8], width: usize, height: usize) -> (r: Vec<u8>)
    requires
        rgb@.len() == width * height * 3,
        width % 2 == 0,
        height % 2 == 0,
    ensures
        r@ == yuv420_of_rgb8(rgb@, width, height),
{
    let yuv = YUVBuffer::from_rgb8_source(RgbSliceU8::new(rgb, (width, height)));
    let mut planes = yuv.y().to_vec();
    planes.extend_from_slice(yuv.u());
    planes.extend_from_slice(yuv.v());
    planes
}

/// A call made on an OpenH264 encoder.
pub enum EncoderCall {
    /// `force_intra_frame`: the next frame is to be a key frame.
    ForceIntra,
    /// `encode` of a frame, given by its bytes, width and height, and whether
    /// the encoding succeeded.
    Encode(Seq<u8>, usize, usize, bool),
}

/// The calls made on an encoder since it was made, in order.
pub uninterp spec fn encoder_log(encoder: Encoder) -> Seq<EncoderCall>;

/// The target bit rate, in bits per second, of an encoder's configuration.
pub uninterp spec fn encoder_bitrate(encoder: Encoder) -> u32;

/// The bytes of the bitstream that an encoder holds from its last `encode`
/// (the `EncodedBitStream` that `encode` hands out borrows them).
pub uninterp spec fn encoder_bitstream(encoder: Encoder) -> Seq<u8>;

/// `Encoder::with_api_config` with the bundled OpenH264 and a configuration
/// that differs from the default by its target bit rate. Creation may fail;
/// claimed of an encoder made: it keeps the configuration it was given, so
/// its target bit rate is `bitrate_bps`, and no call has been made on it.
#[verifier::external_body]
fn new_encoder(bitrate_bps: u32) -> (r: Result<Encoder, OpenH264Error>)
    ensures
        r matches Ok(e) ==> encoder_bitrate(e) == bitrate_bps && encoder_log(e).len() == 0,
{
    Encoder::with_api_config(
        OpenH264API::from_source(),
        EncoderConfig::new().bitrate(BitRate::from_bps(bitrate_bps)),
    )
}

/// `Encoder::force_intra_frame`: the next frame encoded is a key frame.
/// Claimed: the call is recorded in the encoder's log, and the configuration
/// stays.
#[verifier::external_body]
fn force_intra_frame(encoder: &mut Encoder)
    ensures
        encoder_log(*final(encoder)) == encoder_log(*old(encoder)).push(EncoderCall::ForceIntra),
        encoder_bitrate(*final(encoder)) == encoder_bitrate(*old(encoder)),
{
    encoder.force_intra_frame()
}

/// `Encoder::encode` on `YUVBuffer::from_vec(yuv, width, height)`, with the
/// bitstream copied out by `EncodedBitStream::to_vec`. The output depends on
/// the encoder's state as well as on the frame, so it is only named: on
/// success it is the bitstream the encoder holds after the call. Claimed
/// besides: the call, with the frame handed over and whether it succeeded, is
/// recorded in the encoder's log, and the configuration stays.
/// `from_vec` panics on odd dimensions or a buffer of the wrong length, which
/// `requires` rules out.
#[verifier::external_body]
fn encode_yuv(encoder: &mut Encoder, yuv: Vec<u8>, width: usize, height: usize) -> (r: Result<
    Vec<u8>,
    OpenH264Error,
>)
    requires
        width % 2 == 0,
        height % 2 == 0,
        yuv@.len() == 3 * (width * height) / 2,
    ensures
        encoder_log(*final(encoder)) == encoder_log(*old(encoder)).push(
            EncoderCall::Encode(yuv@, width, height, r is Ok),
        ),
        encoder_bitrate(*final(encoder)) == encoder_bitrate(*old(encoder)),
        r matches Ok(v) ==> v@ == encoder_bitstream(*final(encoder)),
{
    match encoder.encode(&YUVBuffer::from_vec(yuv, width, height)) {
        Ok(stream) => Ok(stream.to_vec()),
        Err(e) => Err(e),
    }
}

/// The text of an OpenH264 error, as its `Display` writes it. Nothing is
/// claimed of the text.
#[verifier::external_body]
fn error_message(e: &OpenH264Error) -> (r: String) {
    format!("{}", e)
}

/// A failure of the encoder, with OpenH264's description of it.
#[derive(Debug)]
pub struct EncodeError {
    pub message: String,
}

/// A captured frame converted to the encoder's YUV 4:2:0 input.
pub struct YuvFrame {
    data: Vec<u8>,
    width: usize,
    height: usize,
}

impl YuvFrame {
    #[verifier::type_invariant]
    spec fn well_formed(&self) -> bool {
        &&& self.width % 2 == 0
        &&& self.height % 2 == 0
        &&& self.data@.len() == 3 * (self.width * self.height) / 2
    }

    /// The frame's bytes, width and height.
    pub closed spec fn parts(&self) -> (Seq<u8>, usize, usize) {
        (self.data@, self.width, self.height)
    }

    /// The frame's bytes: the Y plane, then the U plane, then the V plane.
    pub fn bytes(&self) -> (r: &[u8])
        ensures
            r@ == self.parts().0,
    {
        self.data.as_slice()
    }

    /// The frame's width in pixels.
    pub fn width(&self) -> (r: usize)
        ensures
            r == self.parts().1,
    {
        self.width
    }

    /// The frame's height in pixels.
    pub fn height(&self) -> (r: usize)
        ensures
            r == self.parts().2,
    {
        self.height
    }

    /// Converts a captured frame of `width` by `height` XRGB8888 pixels,
    /// refilling `rgb` with its RGB bytes on the way. The frame must hold
    /// exactly `width * height` complete pixels, and both dimensions must be
    /// even, as the encoder's input format demands.
    pub fn from_xrgb(rgb: &mut Vec<u8>, pixels: &[u8], width: usize, height: usize) -> (r: Self)
        requires
            (pixels@.len() / 4) * 3 == width * height * 3,
            width % 2 == 0,
            height % 2 == 0,
        ensures
            final(rgb)@ == rgb_of_xrgb(pixels@),
            r.parts() == (yuv420_of_rgb8(rgb_of_xrgb(pixels@), width, height), width, height),
    {
        fill_rgb(rgb, pixels);
        let data = rgb8_to_yuv420(rgb.as_slice(), width, height);
        proof {
            lemma_yuv420_len(width, height);
            assert(data@.len() == (width * height) + 2 * ((width * height) / 4));
        }
        YuvFrame { data, width, height }
    }
}

/// What one step of the encoder thread produced.
pub enum Encoded {
    /// The encoded bitstream of the captured frame.
    Nal(Vec<u8>),
    /// No frame had been captured, for this reason.
    CaptureFailed(cap::Error),
    /// The encoder failed on the frame.
    EncoderFailed(EncodeError),
}

/// The calls that `FrameEncoder::encode_next` makes for one step: the forced
/// key frame, where `forced`, then the encoding of the captured frame, if
/// there is one, which succeeded where `encoded`.
pub open spec fn step_calls(
    forced: bool,
    frame: Option<(Seq<u8>, usize, usize)>,
    encoded: bool,
) -> Seq<EncoderCall> {
    (if forced {
        seq![EncoderCall::ForceIntra]
    } else {
        Seq::empty()
    }) + match frame {
        Some(parts) => seq![EncoderCall::Encode(parts.0, parts.1, parts.2, encoded)],
        None => Seq::empty(),
    }
}

/// Whether the last call in `calls` is an encoding that succeeded.
pub open spec fn last_encode_succeeded(calls: Seq<EncoderCall>) -> bool {
    calls.len() > 0 && (calls.last() matches EncoderCall::Encode(_, _, _, ok) && ok)
}

/// The parts of a captured frame, where there is one.
pub open spec fn frame_parts(frame: Result<YuvFrame, cap::Error>) -> Option<(Seq<u8>, usize, usize)> {
    match frame {
        Ok(f) => Some(f.parts()),
        Err(_) => None,
    }
}

/// The encoder thread's state: the OpenH264 encoder and its key-frame
/// schedule.
pub struct FrameEncoder {
    encoder: Encoder,
    intra: IntraRefresh,
}

impl FrameEncoder {
    /// How many of the coming frames must still be key frames.
    pub closed spec fn remaining_intra(&self) -> nat {
        self.intra@
    }

    /// The target bit rate of the encoder's configuration.
    pub closed spec fn bitrate_spec(&self) -> u32 {
        encoder_bitrate(self.encoder)
    }

    /// The calls made on the encoder since it was made, in order.
    pub closed spec fn calls(&self) -> Seq<EncoderCall> {
        encoder_log(self.encoder)
    }

    /// The bitstream that the encoder holds from its last encoding.
    pub closed spec fn last_bitstream(&self) -> Seq<u8> {
        encoder_bitstream(self.encoder)
    }

    /// A new encoder at [`BITRATE_BPS`], on which no call has been made yet,
    /// whose first [`INTRA_CNT`] frames will be key frames. Whether OpenH264
    /// can make the encoder is its own to decide.
    pub fn new() -> (r: Result<Self, EncodeError>)
        ensures
            r matches Ok(e) ==> e.remaining_intra() == INTRA_CNT && e.bitrate_spec() == BITRATE_BPS
                && e.calls() == Seq::<EncoderCall>::empty(),
    {
        match new_encoder(BITRATE_BPS) {
            Ok(encoder) => Ok(FrameEncoder { encoder, intra: IntraRefresh::new() }),
            Err(e) => Err(EncodeError { message: error_message(&e) }),
        }
    }

    /// One step of the encoder thread. `refresh` tells whether a client has
    /// joined since the last step; the schedule advances (see
    /// [`intra_step`]) and, where it says so, the encoder is made to send a
    /// key frame. Then the captured frame, if there is one, is encoded; a
    /// capture failure is passed on. Gives whether a key frame was forced, and
    /// the encoded bytes as OpenH264 hands them out. Whether OpenH264 encodes
    /// the frame is its own to decide.
    pub fn encode_next(&mut self, refresh: bool, frame: Result<YuvFrame, cap::Error>) -> (r: (
        bool,
        Encoded,
    ))
        ensures
            (final(self).remaining_intra(), r.0) == intra_step(old(self).remaining_intra(), refresh),
            final(self).bitrate_spec() == old(self).bitrate_spec(),
            final(self).calls() == old(self).calls() + step_calls(
                r.0,
                frame_parts(frame),
                r.1 is Nal,
            ),
            frame is Err ==> r.1 == Encoded::CaptureFailed(frame->Err_0),
            frame is Ok ==> r.1 is Nal || r.1 is EncoderFailed,
            r.1 matches Encoded::Nal(v) ==> v@ == final(self).last_bitstream(),
            frame is Ok ==> (r.1 is Nal <==> last_encode_succeeded(final(self).calls())),
    {
        let forced = self.intra.step(refresh);
        if forced {
            force_intra_frame(&mut self.encoder);
        }
        let encoded = match frame {
            Ok(f) => {
                proof {
                    use_type_invariant(&f);
                }
                let YuvFrame { data, width, height } = f;
                match encode_yuv(&mut self.encoder, data, width, height) {
                    Ok(nal) => Encoded::Nal(nal),
                    Err(e) => Encoded::EncoderFailed(EncodeError { message: error_message(&e) }),
                }
            },
            Err(e) => Encoded::CaptureFailed(e),
        };
        assert(encoder_log(self.encoder) =~= encoder_log(old(self).encoder) + step_calls(
            forced,
            frame_parts(frame),
            encoded is Nal,
        ));
        (forced, encoded)
    }
}

} // verus!
