use vstd::prelude::*;

use crate::error::ConversionIssue;
use crate::error::Error;

verus! {

/// A decoded image held as plain values: 8-bit samples in row-major order,
/// `channels` samples per pixel. Input images carry 1 (luminance),
/// 2 (luminance + alpha), 3 (color) or 4 (color + alpha) channels.
#[derive(Clone, Debug, PartialEq)]
pub struct PixelImage {
    pub width: u32,
    pub height: u32,
    pub channels: u8,
    pub data: Vec<u8>,
}

impl PixelImage {
    /// The buffer holds exactly `width * height * channels` samples.
    pub open spec fn wf(self) -> bool {
        self.data@.len() == self.width as int * self.height as int * self.channels as int
    }

}

/// A one-channel buffer promoted to three channels: every luminance sample
/// is replicated into each color channel of its pixel.
pub open spec fn luma_promoted(src: Seq<u8>) -> Seq<u8> {
    Seq::new(src.len() * 3, |i: int| src[i / 3])
}

/// A two-channel buffer promoted to four channels: the luminance sample is
/// replicated into the three color channels and the alpha sample is kept.
pub open spec fn luma_alpha_promoted(src: Seq<u8>) -> Seq<u8> {
    Seq::new(
        (src.len() / 2) * 4,
        |i: int|
            if i % 4 == 3 {
                src[(i / 4) * 2 + 1]
            } else {
                src[(i / 4) * 2]
            },
    )
}

/// The bytes a buffer with this channel count carries after
/// normalization: one channel is promoted to three, two to four,
/// anything else passes through.
pub open spec fn normalized_bytes(channels: int, data: Seq<u8>) -> Seq<u8> {
    if channels == 1 {
        luma_promoted(data)
    } else if channels == 2 {
        luma_alpha_promoted(data)
    } else {
        data
    }
}

/// The channel count an image has after normalization.
pub open spec fn normalized_channels(c: int) -> int {
    if c == 1 {
        3
    } else if c == 2 {
        4
    } else {
        c
    }
}

fn promote_luma(data: &Vec<u8>) -> (out: Vec<u8>)
    ensures
        out@ == luma_promoted(data@),
{
    let n = data.len();
    let mut out: Vec<u8> = Vec::new();
    let mut i: usize = 0;
    while i < n
        invariant
            i <= n,
            n == data@.len(),
            out@.len() == 3 * i,
            forall|k: int| 0 <= k < out@.len() ==> out@[k] == data@[k / 3],
        decreases n - i,
    {
        let b = data[i];
        let ghost prev = out@;
        out.push(b);
        out.push(b);
        out.push(b);
        proof {
            let ii = i as int;
            assert((3 * ii) / 3 == ii && (3 * ii + 1) / 3 == ii && (3 * ii + 2) / 3 == ii)
                by (nonlinear_arith);
            assert forall|k: int| 0 <= k < out@.len() implies out@[k] == data@[k / 3] by {
                if k < prev.len() {
                    assert(out@[k] == prev[k]);
                } else {
                    assert(k == 3 * ii || k == 3 * ii + 1 || k == 3 * ii + 2);
                    assert(out@[k] == b);
                }
            }
        }
        i = i + 1;
    }
    proof {
        assert(out@ =~= luma_promoted(data@));
    }
    out
}

fn promote_luma_alpha(data: &Vec<u8>) -> (out: Vec<u8>)
    ensures
        out@ == luma_alpha_promoted(data@),
{
    let n = data.len();
    let pixels = n / 2;
    let mut out: Vec<u8> = Vec::new();
    let mut p: usize = 0;
    proof {
        vstd::arithmetic::div_mod::lemma_fundamental_div_mod(n as int, 2);
    }
    while p < pixels
        invariant
            p <= pixels,
            pixels == n as int / 2,
            2 * pixels <= n,
            n == data@.len(),
            out@.len() == 4 * p,
            forall|k: int|
                0 <= k < out@.len() ==> out@[k] == (if k % 4 == 3 {
                    data@[(k / 4) * 2 + 1]
                } else {
                    data@[(k / 4) * 2]
                }),
        decreases pixels - p,
    {
        let luma = data[2 * p];
        let alpha = data[2 * p + 1];
        let ghost prev = out@;
        out.push(luma);
        out.push(luma);
        out.push(luma);
        out.push(alpha);
        proof {
            let pp = p as int;
            assert((4 * pp) / 4 == pp && (4 * pp) % 4 == 0 && (4 * pp + 1) / 4 == pp && (4 * pp
                + 1) % 4 == 1 && (4 * pp + 2) / 4 == pp && (4 * pp + 2) % 4 == 2 && (4 * pp + 3)
                / 4 == pp && (4 * pp + 3) % 4 == 3) by (nonlinear_arith);
            assert forall|k: int|
                0 <= k < out@.len() implies out@[k] == (if k % 4 == 3 {
                data@[(k / 4) * 2 + 1]
            } else {
                data@[(k / 4) * 2]
            }) by {
                if k < prev.len() {
                    assert(out@[k] == prev[k]);
                } else {
                    assert(k == 4 * pp || k == 4 * pp + 1 || k == 4 * pp + 2 || k == 4 * pp + 3);
                    if k == 4 * pp + 3 {
                        assert(out@[k] == alpha);
                    } else {
                        assert(out@[k] == luma);
                    }
                }
            }
        }
        p = p + 1;
    }
    proof {
        assert(out@ =~= luma_alpha_promoted(data@));
    }
    out
}

/// Channel normalization: one channel (luminance) is promoted to three by
/// replication, two channels (luminance + alpha) are promoted to four,
/// three and four pass through unchanged. Any other channel count is
/// rejected. Luminance and alpha content is preserved sample for sample.
pub fn normalize_channels(img: PixelImage) -> (r: Result<PixelImage, Error>)
    requires
        img.wf(),
    ensures
        img.channels == 3 || img.channels == 4 ==> r == Ok::<PixelImage, Error>(img),
        img.channels == 1 ==> (r matches Ok(out) && out.width == img.width && out.height
            == img.height && out.channels == 3 && out.data@ == luma_promoted(img.data@)),
        img.channels == 2 ==> (r matches Ok(out) && out.width == img.width && out.height
            == img.height && out.channels == 4 && out.data@ == luma_alpha_promoted(img.data@)),
        !(1 <= img.channels <= 4) ==> r == Err::<PixelImage, Error>(
            Error::Conversion { issue: ConversionIssue::UnsupportedChannels { channels: img.channels } },
        ),
        r matches Ok(out) ==> (out.wf() && out.channels == normalized_channels(
            img.channels as int,
        ) && out.width == img.width && out.height == img.height),
{
    match img.channels {
        1 => {
            let data = promote_luma(&img.data);
            let out = PixelImage { width: img.width, height: img.height, channels: 3, data };
            proof {
                assert(out.data@.len() == img.width as int * img.height as int * 3);
            }
            Ok(out)
        },
        2 => {
            let data = promote_luma_alpha(&img.data);
            let out = PixelImage { width: img.width, height: img.height, channels: 4, data };
            proof {
                assert(out.data@.len() == img.width as int * img.height as int * 4);
            }
            Ok(out)
        },
        3 => Ok(img),
        4 => Ok(img),
        _ => Err(Error::Conversion { issue: ConversionIssue::UnsupportedChannels { channels: img.channels } }),
    }
}

/// Rebuilds a decoded image from a flat byte buffer. The channel count must
/// be one of `1..=4` and the buffer must hold exactly
/// `width * height * channels` bytes; each failure names its cause.
pub fn reconstruct(width: u32, height: u32, channels: u8, bytes: Vec<u8>) -> (r: Result<
    PixelImage,
    Error,
>)
    ensures
        !(1 <= channels <= 4) ==> r == Err::<PixelImage, Error>(
            Error::Conversion { issue: ConversionIssue::UnsupportedChannels { channels } },
        ),
        1 <= channels <= 4 && bytes@.len() != width as int * height as int * channels as int ==> r
            == Err::<PixelImage, Error>(
            Error::Conversion { issue: ConversionIssue::LengthMismatch },
        ),
        1 <= channels <= 4 && bytes@.len() == width as int * height as int * channels as int
            ==> (r matches Ok(img) && img.width == width && img.height == height && img.channels
            == channels && img.data@ == bytes@ && img.wf()),
{
    if !(1 <= channels && channels <= 4) {
        return Err(Error::Conversion { issue: ConversionIssue::UnsupportedChannels { channels } });
    }
    proof {
        assert(width as int * height as int <= 0xffff_ffff * 0xffff_ffff) by (nonlinear_arith)
            requires
                width <= u32::MAX,
                height <= u32::MAX,
        ;
        assert(width as int * height as int * channels as int <= 0xffff_ffff * 0xffff_ffff * 4)
            by (nonlinear_arith)
            requires
                width <= u32::MAX,
                height <= u32::MAX,
                1 <= channels <= 4,
        ;
    }
    let expected: u128 = width as u128 * height as u128 * channels as u128;
    if bytes.len() as u128 != expected {
        return Err(Error::Conversion { issue: ConversionIssue::LengthMismatch });
    }
    Ok(PixelImage { width, height, channels, data: bytes })
}

} // verus!
