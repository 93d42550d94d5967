//! Compression of captured frames: the verified conversion from the
//! capture source's BGRA pixel layout to RGB, and the encoder call that
//! turns RGB pixels into a compressed image.

use vstd::prelude::*;
use vstd::string::StringExecFns;

verus! {

/// Errors of frame compression.
#[derive(Debug, Clone, PartialEq, Eq)]
pub enum JpegError {
    /// The encoder failed; its report, as text.
    ImageError(String),
    /// The pixel buffer does not match the stated dimensions.
    InvalidDimensions,
}

pub type JpegResult<T> = Result<T, JpegError>;

/// The RGB reading of a BGRA pixel buffer: for each four-byte pixel,
/// the blue and red channels swap places and the alpha channel is
/// dropped.
pub open spec fn rgb_of_bgra(b: Seq<u8>) -> Seq<u8> {
    Seq::new((b.len() / 4 * 3) as nat, |i: int| b[4 * (i / 3) + 2 - (i % 3)])
}

/// Converts a BGRA pixel buffer to RGB.
#[verifier::loop_isolation(false)]
pub fn bgra_to_rgb(b: &[u8]) -> (r: Vec<u8>)
    ensures
        r@ == rgb_of_bgra(b@),
{
    let mut out: Vec<u8> = Vec::new();
    let pixels = b.len() / 4;
    for k in 0..pixels
        invariant
            pixels == b@.len() / 4,
            out@.len() == 3 * k,
            forall|j: int| 0 <= j < k ==> #[trigger] out@[3 * j] == b@[4 * j + 2],
            forall|j: int| 0 <= j < k ==> #[trigger] out@[3 * j + 1] == b@[4 * j + 1],
            forall|j: int| 0 <= j < k ==> #[trigger] out@[3 * j + 2] == b@[4 * j],
    {
        out.push(b[4 * k + 2]);
        out.push(b[4 * k + 1]);
        out.push(b[4 * k]);
    }
    proof {
        assert forall|i: int| 0 <= i < out@.len() implies out@[i] == b@[4 * (i / 3) + 2 - (i
            % 3)] by {
            let j = i / 3;
            let c = i % 3;
            assert(i == 3 * j + c);
            if c == 0 {
                assert(out@[3 * j] == b@[4 * j + 2]);
            } else if c == 1 {
                assert(out@[3 * j + 1] == b@[4 * j + 1]);
            } else {
                assert(out@[3 * j + 2] == b@[4 * j]);
            }
        };
        assert(out@ =~= rgb_of_bgra(b@));
    }
    out
}

/// The compressed image the encoder produces for given RGB pixels and
/// dimensions: a function of its arguments alone.
pub uninterp spec fn jpeg_encoding(rgb: Seq<u8>, width: u32, height: u32) -> Seq<u8>;

/// Relies on the image crate: RgbImage::from_raw accepts a buffer of
/// exactly three bytes per pixel, and write_to in JPEG format has one
/// failure of its own — each dimension must lie in 1..=65535 — while
/// writing to the in-memory buffer cannot fail; successful bytes depend
/// only on the pixels and dimensions (the encoder is deterministic at
/// its fixed default quality).
#[verifier::external_body]
fn jpeg_from_rgb(rgb: &Vec<u8>, width: u32, height: u32) -> (r: Result<Vec<u8>, String>)
    requires
        rgb@.len() == width * height * 3,
    ensures
        (r is Ok) == (1 <= width <= 65535 && 1 <= height <= 65535),
        r matches Ok(bytes) ==> bytes@ == jpeg_encoding(rgb@, width, height),
{
    let img = match image::RgbImage::from_raw(width, height, rgb.clone()) {
        Some(img) => img,
        None => {
            return Err("pixel buffer does not match dimensions".to_string());
        },
    };
    let mut buffer = std::io::Cursor::new(Vec::new());
    match img.write_to(&mut buffer, image::ImageFormat::Jpeg) {
        Ok(()) => Ok(buffer.into_inner()),
        Err(e) => Err(e.to_string()),
    }
}

/// Encodes raw BGRA pixel data as a compressed JPEG image.
///
/// A buffer whose length is not exactly four bytes per pixel is
/// rejected as a dimension mismatch before the encoder is reached. For
/// a matching buffer, success is owed exactly when both dimensions lie
/// in 1..=65535 — the encoder's one limit — and a successful result is
/// exactly the encoding of the RGB reading of the buffer; dimensions
/// outside that range are reported as an encoder failure with its
/// text.
pub fn encode_bgra_to_jpeg_bytes(bgra_data: &[u8], width: u32, height: u32, quality: u8) -> (r:
    JpegResult<Vec<u8>>)
    ensures
        bgra_data@.len() != width * height * 4 ==> r == JpegResult::<Vec<u8>>::Err(
            JpegError::InvalidDimensions,
        ),
        bgra_data@.len() == width * height * 4 ==> {
            &&& (r is Ok) == (1 <= width <= 65535 && 1 <= height <= 65535)
            &&& (r matches Ok(bytes) ==> bytes@ == jpeg_encoding(
                rgb_of_bgra(bgra_data@),
                width,
                height,
            ))
            &&& (r matches Err(e) ==> e is ImageError)
        },
{
    proof {
        let w = width as int;
        let h = height as int;
        assert(w * h <= 0xFFFFFFFF * 0xFFFFFFFF) by (nonlinear_arith)
            requires
                0 <= w <= 0xFFFFFFFF,
                0 <= h <= 0xFFFFFFFF,
        ;
    }
    let wh: u64 = (width as u64) * (height as u64);
    let expected: u128 = (wh as u128) * 4;
    if (bgra_data.len() as u128) != expected {
        return Err(JpegError::InvalidDimensions);
    }
    let rgb = bgra_to_rgb(bgra_data);
    proof {
        let w = width as int;
        let h = height as int;
        assert((w * h * 4) / 4 * 3 == w * h * 3) by (nonlinear_arith);
    }
    match jpeg_from_rgb(&rgb, width, height) {
        Ok(bytes) => Ok(bytes),
        Err(m) => Err(JpegError::ImageError(m)),
    }
}

} // verus!
