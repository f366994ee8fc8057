//! The image asset: a raster image decoded once, at startup, into a raw
//! interleaved 4-channel (red, green, blue, alpha), 8-bit, row-major pixel
//! buffer with stride = width * 4.
//!
//! The container format itself is parsed by the `png` crate behind one
//! trusted wrapper. Decoding is deterministic in the byte stream alone, so
//! its outcome is given names (`png_frame_ok`, `png_frame_data`,
//! `png_frame_width`, `png_frame_height`) that the wrapper's contract ties
//! to the call; everything the decoder hands back is then validated by the
//! verified `assemble`: positive dimensions and a byte count of exactly
//! width * height * 4, so that the compositor can copy rows without any
//! per-pixel conversion. The source asset must already be 4-channel 8-bit;
//! a frame in any other layout is rejected as a size mismatch, exactly as a
//! verbatim row copy requires.

use vstd::prelude::*;
use std::io::Cursor;

verus! {

#[verifier::external_type_specification]
#[verifier::external_body]
pub struct ExDecodingError(png::DecodingError);

/// Whether the decoder accepts `bytes` as a well-formed image and yields its
/// first frame — a property of the stream's content alone; running out of a
/// machine's limits is not part of it.
pub uninterp spec fn png_frame_ok(bytes: Seq<u8>) -> bool;

/// The bytes of the decoded first frame of `bytes`, row-major, in the
/// stream's own channel layout.
pub uninterp spec fn png_frame_data(bytes: Seq<u8>) -> Seq<u8>;

/// The pixel width of the decoded first frame of `bytes`.
pub uninterp spec fn png_frame_width(bytes: Seq<u8>) -> nat;

/// The pixel height of the decoded first frame of `bytes`.
pub uninterp spec fn png_frame_height(bytes: Seq<u8>) -> nat;

/// Relies on png::DecodingError's variants: `LimitsExceeded` reports the
/// machine's memory budget, every other variant rejects the stream itself
/// (reading from an in-memory cursor raises no I/O error, and the output
/// buffer handed to the decoder always has the size it asked for).
#[verifier::external_body]
fn refusal_of(e: png::DecodingError) -> DecodeError {
    match e {
        png::DecodingError::LimitsExceeded => DecodeError::TooLarge,
        _ => DecodeError::Malformed,
    }
}

/// Relies on the `png` decode chain — `png::Decoder::new`,
/// `Decoder::read_info`, `Reader::output_buffer_size`, `Reader::next_frame`,
/// with the result cut to `OutputInfo::buffer_size` — run on the byte stream
/// alone with the crate's default options, so the outcome is a function of
/// `bytes`. On `Ok` the returned buffer, width and height are exactly the
/// decoded first frame. `Malformed` comes only when the decoder rejects the
/// stream's content; `TooLarge` only when decoding would exceed the
/// machine's limits, and of that outcome nothing more is claimed, since it
/// alone depends on the machine.
#[verifier::external_body]
fn decode_frame(bytes: &Vec<u8>) -> (res: Result<(Vec<u8>, u32, u32), DecodeError>)
    ensures
        res matches Ok(t) ==> (png_frame_ok(bytes@) && t.0@ == png_frame_data(bytes@) && t.1
            == png_frame_width(bytes@) && t.2 == png_frame_height(bytes@)),
        res is Err ==> (res == Err::<(Vec<u8>, u32, u32), DecodeError>(DecodeError::Malformed)
            || res == Err::<(Vec<u8>, u32, u32), DecodeError>(DecodeError::TooLarge)),
        png_frame_ok(bytes@) ==> (res matches Ok(_) || res == Err::<(Vec<u8>, u32, u32),
            DecodeError,
        >(DecodeError::TooLarge)),
{
    let decoder = png::Decoder::new(Cursor::new(bytes.as_slice()));
    let mut reader = match decoder.read_info() { Ok(r) => r, Err(e) => return Err(refusal_of(e)) };
    let n: usize = match reader.output_buffer_size() { Some(n) => n, None => return Err(DecodeError::TooLarge) };
    let mut buf = vec![0u8; n];
    let info = match reader.next_frame(&mut buf) { Ok(i) => i, Err(e) => return Err(refusal_of(e)) };
    buf.truncate(info.buffer_size());
    Ok((buf, info.width, info.height))
}

/// Why a byte stream could not become an image asset.
#[derive(Clone, Copy, PartialEq, Eq, Structural, Debug)]
pub enum DecodeError {
    /// The decoder rejected the bytes: they are not a well-formed image of
    /// the expected container format.
    Malformed,
    /// Decoding the frame would exceed the machine's limits (its address
    /// space, or the decoder's memory budget).
    TooLarge,
    /// The decoded frame has zero width or zero height.
    EmptyImage,
    /// The decoded byte count does not match width * height * 4.
    SizeMismatch,
}

/// A decoded image: an owned pixel buffer of exactly width * height * 4
/// bytes in interleaved RGBA, 8 bits per channel, row-major layout. Decoded
/// once and never mutated afterwards.
#[derive(Clone, PartialEq, Eq, Debug)]
pub struct ImageAsset {
    pub pixels: Vec<u8>,
    pub width: usize,
    pub height: usize,
}

impl ImageAsset {
    /// Positive dimensions, and the buffer holds exactly one byte per
    /// channel of every pixel.
    pub open spec fn wf(&self) -> bool {
        &&& 0 < self.width
        &&& 0 < self.height
        &&& self.pixels@.len() == self.width * self.height * 4
    }
}

/// Validate a decoded frame and assemble the image asset. The frame is
/// accepted exactly when its dimensions are positive and `buf` holds
/// exactly 4 bytes for each of its `width * height` pixels.
pub fn assemble(buf: Vec<u8>, width: u32, height: u32) -> (r: Result<ImageAsset, DecodeError>)
    ensures
        r is Ok <==> {
            &&& 0 < width
            &&& 0 < height
            &&& buf@.len() == 4 * width * height
        },
        r matches Ok(a) ==> {
            &&& a.wf()
            &&& a.width == width
            &&& a.height == height
            &&& a.pixels@ == buf@
        },
        r == Err::<ImageAsset, DecodeError>(DecodeError::EmptyImage) <==> (width == 0 || height
            == 0),
        r == Err::<ImageAsset, DecodeError>(DecodeError::SizeMismatch) <==> {
            &&& 0 < width
            &&& 0 < height
            &&& buf@.len() != 4 * width * height
        },
{
    proof {
        assert(buf@.len() == buf.len());
    }
    if width == 0 || height == 0 {
        return Err(DecodeError::EmptyImage);
    }
    let w: usize = width as usize;
    let h: usize = height as usize;
    match w.checked_mul(4) {
        None => {
            proof {
                assert(4 * (width as int) <= 4 * (width as int) * (height as int))
                    by (nonlinear_arith)
                    requires
                        1 <= height,
                        0 <= width,
                ;
            }
            Err(DecodeError::SizeMismatch)
        },
        Some(row_bytes) => {
            match row_bytes.checked_mul(h) {
                None => Err(DecodeError::SizeMismatch),
                Some(total) => {
                    if buf.len() != total {
                        return Err(DecodeError::SizeMismatch);
                    }
                    proof {
                        assert(4 * (width as int) * (height as int) == (width as int) * (
                        height as int) * 4) by (nonlinear_arith);
                    }
                    Ok(ImageAsset { pixels: buf, width: w, height: h })
                },
            }
        },
    }
}

/// Decode an image byte stream into a raw RGBA pixel buffer: run the
/// external decoder once, then validate its frame. Success, the asset's
/// exact content and every error are pinned over the named decode results;
/// the one escape is `TooLarge`, the machine-limit outcome, which may stand
/// in for success on a machine the frame does not fit.
pub fn load(bytes: &Vec<u8>) -> (r: Result<ImageAsset, DecodeError>)
    ensures
        r matches Ok(a) ==> {
            &&& a.wf()
            &&& png_frame_ok(bytes@)
            &&& a.pixels@ == png_frame_data(bytes@)
            &&& a.width == png_frame_width(bytes@)
            &&& a.height == png_frame_height(bytes@)
        },
        r == Err::<ImageAsset, DecodeError>(DecodeError::Malformed) ==> !png_frame_ok(bytes@),
        r == Err::<ImageAsset, DecodeError>(DecodeError::EmptyImage) ==> {
            &&& png_frame_ok(bytes@)
            &&& (png_frame_width(bytes@) == 0 || png_frame_height(bytes@) == 0)
        },
        r == Err::<ImageAsset, DecodeError>(DecodeError::SizeMismatch) ==> {
            &&& png_frame_ok(bytes@)
            &&& 0 < png_frame_width(bytes@)
            &&& 0 < png_frame_height(bytes@)
            &&& png_frame_data(bytes@).len() != 4 * png_frame_width(bytes@) * png_frame_height(
                bytes@,
            )
        },
        (png_frame_ok(bytes@) && 0 < png_frame_width(bytes@) && 0 < png_frame_height(bytes@)
            && png_frame_data(bytes@).len() == 4 * png_frame_width(bytes@) * png_frame_height(
            bytes@,
        )) ==> (r is Ok || r == Err::<ImageAsset, DecodeError>(DecodeError::TooLarge)),
{
    let frame: (Vec<u8>, u32, u32) = match decode_frame(bytes) {
        Ok(t) => t,
        Err(e) => {
            return Err(e);
        },
    };
    assemble(frame.0, frame.1, frame.2)
}

} // verus!
