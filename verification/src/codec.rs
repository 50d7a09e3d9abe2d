use vstd::prelude::*;

use image::DynamicImage;
use image::GrayAlphaImage;
use image::GrayImage;
use image::ImageFormat;
use image::RgbImage;
use image::RgbaImage;

use crate::error::ConversionIssue;
use crate::error::Error;
use crate::marshal::EngineSettings;
use crate::marshal::ProcessPlan;
use crate::marshal::begin_process;
use crate::marshal::dims_in_range;
use crate::marshal::finish_process;
use crate::pixels::PixelImage;
use crate::pixels::normalized_bytes;
use crate::pixels::normalized_channels;
use crate::pixels::reconstruct;

verus! {

/// The encoded formats this library re-encodes to. Detection that names
/// anything else falls back to PNG, which is always available.
#[derive(Debug, Clone, Copy, PartialEq, Eq, Structural)]
pub enum EncodedFormat {
    Png,
    Jpeg,
}

/// The format the leading magic bytes name: JPEG exactly when the data
/// opens with the three JPEG marker bytes `ff d8 ff`, and PNG — the
/// fallback for everything unrecognized or unsupported — otherwise.
pub open spec fn detected_format(data: Seq<u8>) -> EncodedFormat {
    if data.len() >= 3 && data[0] == 0xff && data[1] == 0xd8 && data[2] == 0xff {
        EncodedFormat::Jpeg
    } else {
        EncodedFormat::Png
    }
}

/// Reads the format off the leading magic bytes.
pub fn detect_format(data: &[u8]) -> (r: EncodedFormat)
    ensures
        r == detected_format(data@),
{
    if data.len() >= 3 && data[0] == 0xff && data[1] == 0xd8 && data[2] == 0xff {
        EncodedFormat::Jpeg
    } else {
        EncodedFormat::Png
    }
}

/// What decoding an encoded image yields, when it yields anything: the
/// width, the height, the samples per pixel of the decoded color, and
/// the flat sample bytes. A pure function of the encoded bytes alone.
pub uninterp spec fn decoded_of(data: Seq<u8>) -> Option<(u32, u32, u8, Seq<u8>)>;

/// Relies on image::load_from_memory: decodes an encoded image into one
/// flat sample buffer, handing back the extents, the decoded color's
/// bytes per pixel, and the bytes. The decoders compute from the bytes
/// alone, so the result carries the name `decoded_of`; the buffer is
/// still validated by the caller before anything is built on it.
#[verifier::external_body]
fn decode_raw(data: &[u8]) -> (r: Option<(u32, u32, u8, Vec<u8>)>)
    ensures
        r is Some <==> decoded_of(data@) is Some,
        r matches Some(t) ==> (decoded_of(data@) matches Some(d) && t.0 == d.0 && t.1 == d.1
            && t.2 == d.2 && t.3@ == d.3),
{
    let img = image::load_from_memory(data).ok()?;
    let channels = img.color().bytes_per_pixel();
    Some((img.width(), img.height(), channels, img.into_bytes()))
}

/// What re-encoding a sample buffer with these extents yields, when the
/// encoder accepts it. A pure function of its arguments alone.
pub uninterp spec fn encoded_of(
    width: u32,
    height: u32,
    channels: u8,
    data: Seq<u8>,
    as_jpeg: bool,
) -> Option<Seq<u8>>;

/// Relies on ImageBuffer::from_raw and DynamicImage::write_to: wraps the
/// samples as a gray, gray-alpha, RGB or RGBA image and encodes it as
/// JPEG or as PNG. The encoders compute from these arguments alone, so
/// the result carries the name `encoded_of`.
#[verifier::external_body]
fn encode_raw(img: &PixelImage, as_jpeg: bool) -> (r: Option<Vec<u8>>)
    requires
        img.wf(),
        1 <= img.channels <= 4,
    ensures
        r is Some <==> encoded_of(img.width, img.height, img.channels, img.data@, as_jpeg)
            is Some,
        r matches Some(out) ==> (encoded_of(img.width, img.height, img.channels, img.data@, as_jpeg)
            matches Some(e) && out@ == e),
{
    let buf = img.data.clone();
    let wrapped = match img.channels {
        1 => GrayImage::from_raw(img.width, img.height, buf).map(DynamicImage::from),
        2 => GrayAlphaImage::from_raw(img.width, img.height, buf).map(DynamicImage::from),
        3 => RgbImage::from_raw(img.width, img.height, buf).map(DynamicImage::from),
        _ => RgbaImage::from_raw(img.width, img.height, buf).map(DynamicImage::from),
    }?;
    let target = if as_jpeg { ImageFormat::Jpeg } else { ImageFormat::Png };
    let mut cursor = std::io::Cursor::new(Vec::new());
    wrapped.write_to(&mut cursor, target).ok()?;
    Some(cursor.into_inner())
}

/// Decodes raw encoded bytes — the format is auto-detected — into a
/// pixel image, together with the detected format for re-encoding after
/// processing. Exactly the decodable inputs whose decoded buffer passes
/// validation come back `Ok`: an undecodable input fails as such, a
/// channel count outside `1..=4` or a buffer that does not hold exactly
/// `width * height * channels` bytes fails with the conversion error
/// that names it.
pub fn decode_image(data: &[u8]) -> (r: Result<(PixelImage, EncodedFormat), Error>)
    ensures
        decoded_of(data@) is None ==> r == Err::<(PixelImage, EncodedFormat), Error>(
            Error::Conversion { issue: ConversionIssue::DecodeFailed },
        ),
        decoded_of(data@) matches Some(d) ==> ({
            let (w, h, c, b) = d;
            &&& !(1 <= c <= 4) ==> r == Err::<(PixelImage, EncodedFormat), Error>(
                Error::Conversion { issue: ConversionIssue::UnsupportedChannels { channels: c } },
            )
            &&& 1 <= c <= 4 && b.len() != w as int * h as int * c as int ==> r == Err::<
                (PixelImage, EncodedFormat),
                Error,
            >(Error::Conversion { issue: ConversionIssue::LengthMismatch })
            &&& 1 <= c <= 4 && b.len() == w as int * h as int * c as int ==> (r matches Ok(
                (img, format),
            ) && img.width == w && img.height == h && img.channels == c && img.data@ == b
                && img.wf() && format == detected_format(data@))
        }),
{
    let format = detect_format(data);
    match decode_raw(data) {
        None => Err(Error::Conversion { issue: ConversionIssue::DecodeFailed }),
        Some((width, height, channels, bytes)) => {
            match reconstruct(width, height, channels, bytes) {
                Ok(img) => Ok((img, format)),
                Err(e) => Err(e),
            }
        },
    }
}

/// Re-encodes a pixel image in the given format. A channel count outside
/// `1..=4` or a malformed buffer is rejected with the conversion error
/// that names it; a well-formed image comes back `Ok` exactly when the
/// encoder accepts it, carrying exactly the encoder's bytes.
pub fn encode_image(img: &PixelImage, format: EncodedFormat) -> (r: Result<Vec<u8>, Error>)
    ensures
        !(1 <= img.channels <= 4) ==> r == Err::<Vec<u8>, Error>(
            Error::Conversion { issue: ConversionIssue::UnsupportedChannels { channels: img.channels } },
        ),
        1 <= img.channels <= 4 && !img.wf() ==> r == Err::<Vec<u8>, Error>(
            Error::Conversion { issue: ConversionIssue::LengthMismatch },
        ),
        1 <= img.channels <= 4 && img.wf() ==> ({
            let e = encoded_of(img.width, img.height, img.channels, img.data@, format is Jpeg);
            &&& e is None ==> r == Err::<Vec<u8>, Error>(
                Error::Conversion { issue: ConversionIssue::EncodeFailed },
            )
            &&& e matches Some(bytes) ==> (r matches Ok(out) && out@ == bytes)
        }),
{
    if !(1 <= img.channels && img.channels <= 4) {
        return Err(
            Error::Conversion { issue: ConversionIssue::UnsupportedChannels { channels: img.channels } },
        );
    }
    proof {
        assert(img.width as int * img.height as int <= 0xffff_ffff * 0xffff_ffff)
            by (nonlinear_arith)
            requires
                img.width <= u32::MAX,
                img.height <= u32::MAX,
        ;
        assert(img.width as int * img.height as int * img.channels as int <= 0xffff_ffff
            * 0xffff_ffff * 4) by (nonlinear_arith)
            requires
                img.width <= u32::MAX,
                img.height <= u32::MAX,
                1 <= img.channels <= 4,
        ;
    }
    let expected: u128 = img.width as u128 * img.height as u128 * img.channels as u128;
    if img.data.len() as u128 != expected {
        return Err(Error::Conversion { issue: ConversionIssue::LengthMismatch });
    }
    let as_jpeg = match format {
        EncodedFormat::Jpeg => true,
        EncodedFormat::Png => false,
    };
    match encode_raw(img, as_jpeg) {
        Some(bytes) => Ok(bytes),
        None => Err(Error::Conversion { issue: ConversionIssue::EncodeFailed }),
    }
}

/// Prepares one native call straight from raw encoded bytes: decodes
/// them, then plans the call as `begin_process` does. The detected
/// format rides along so the processed image can be re-encoded the same
/// way. Success is owed whenever the handle is live, the bytes decode
/// to a valid buffer, and the extents fit the native range; each
/// failure is the one that names its cause.
pub fn begin_raw_process(settings: &EngineSettings, handle_live: bool, data: &[u8]) -> (r: Result<
    (ProcessPlan, EncodedFormat),
    Error,
>)
    requires
        settings.wf(),
    ensures
        !handle_live ==> r == Err::<(ProcessPlan, EncodedFormat), Error>(Error::Handle),
        handle_live && decoded_of(data@) is None ==> r == Err::<(ProcessPlan, EncodedFormat), Error>(
            Error::Conversion { issue: ConversionIssue::DecodeFailed },
        ),
        handle_live ==> (decoded_of(data@) matches Some(d) ==> ({
            let (w, h, c, b) = d;
            &&& !(1 <= c <= 4) ==> r == Err::<(ProcessPlan, EncodedFormat), Error>(
                Error::Conversion { issue: ConversionIssue::UnsupportedChannels { channels: c } },
            )
            &&& 1 <= c <= 4 && b.len() != w as int * h as int * c as int ==> r == Err::<
                (ProcessPlan, EncodedFormat),
                Error,
            >(Error::Conversion { issue: ConversionIssue::LengthMismatch })
            &&& 1 <= c <= 4 && b.len() == w as int * h as int * c as int && !dims_in_range(
                w as int,
                h as int,
                normalized_channels(c as int),
                settings.scale as int,
            ) ==> r == Err::<(ProcessPlan, EncodedFormat), Error>(
                Error::Conversion { issue: ConversionIssue::DimensionOverflow },
            )
            &&& 1 <= c <= 4 && b.len() == w as int * h as int * c as int && dims_in_range(
                w as int,
                h as int,
                normalized_channels(c as int),
                settings.scale as int,
            ) ==> (r matches Ok((plan, format)) && plan.wf() && plan.use_cpu == settings.use_cpu
                && plan.in_desc.w == w && plan.in_desc.h == h && plan.in_desc.c
                == normalized_channels(c as int) && plan.out_desc.w == w as int
                * settings.scale as int && plan.out_desc.h == h as int * settings.scale as int
                && plan.out_desc.c == normalized_channels(c as int) && plan.input.data@
                == normalized_bytes(c as int, b) && format == detected_format(data@))
        })),
{
    if !handle_live {
        return Err(Error::Handle);
    }
    let (img, format) = match decode_image(data) {
        Ok(p) => p,
        Err(e) => {
            return Err(e);
        },
    };
    match begin_process(settings, true, img) {
        Ok(plan) => Ok((plan, format)),
        Err(e) => Err(e),
    }
}

/// Completes one native call begun from raw encoded bytes: a nonzero
/// status fails with ProcessingError and nothing is read; a buffer of
/// the wrong length is rejected; otherwise the copied bytes are rebuilt
/// into an image of exactly the planned output extents and re-encoded in
/// the given format, coming back `Ok` with exactly the encoder's bytes
/// whenever the encoder accepts the image.
pub fn finish_raw_process(
    plan: &ProcessPlan,
    format: EncodedFormat,
    status: i32,
    bytes: Vec<u8>,
) -> (r: Result<Vec<u8>, Error>)
    requires
        plan.wf(),
    ensures
        status != 0 ==> r == Err::<Vec<u8>, Error>(Error::Processing { status }),
        status == 0 && bytes@.len() != plan.out_desc.byte_len() ==> r == Err::<Vec<u8>, Error>(
            Error::Conversion { issue: ConversionIssue::LengthMismatch },
        ),
        status == 0 && bytes@.len() == plan.out_desc.byte_len() ==> ({
            let e = encoded_of(
                plan.out_desc.w as u32,
                plan.out_desc.h as u32,
                plan.out_desc.c as u8,
                bytes@,
                format is Jpeg,
            );
            &&& e is None ==> r == Err::<Vec<u8>, Error>(
                Error::Conversion { issue: ConversionIssue::EncodeFailed },
            )
            &&& e matches Some(enc) ==> (r matches Ok(out) && out@ == enc)
        }),
{
    let img = match finish_process(plan, status, bytes) {
        Ok(img) => img,
        Err(e) => {
            return Err(e);
        },
    };
    proof {
        assert(img.width == plan.out_desc.w as u32);
        assert(img.height == plan.out_desc.h as u32);
        assert(img.channels == plan.out_desc.c as u8);
    }
    encode_image(&img, format)
}

} // verus!
