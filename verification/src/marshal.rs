use vstd::prelude::*;

use crate::error::ConversionIssue;
use crate::error::Error;
use crate::pixels::PixelImage;
use crate::pixels::normalize_channels;
use crate::pixels::normalized_bytes;
use crate::pixels::normalized_channels;
use crate::pixels::reconstruct;

verus! {

/// The extents of a native pixel buffer: width, height and channel count,
/// each 32-bit signed as the native ABI requires. The data pointer that
/// completes the native layout stays outside this crate.
#[derive(Clone, Copy, Debug, PartialEq, Eq, Structural)]
pub struct BufferDesc {
    pub w: i32,
    pub h: i32,
    pub c: i32,
}

impl BufferDesc {
    /// How many bytes a buffer with these extents holds.
    pub open spec fn byte_len(self) -> int {
        self.w as int * self.h as int * self.c as int
    }
}

/// The fixed numeric identity of one live handle: the scale its model
/// upscales by, and whether its context runs on the CPU. Never mutated
/// after construction.
#[derive(Clone, Copy, Debug, PartialEq, Eq, Structural)]
pub struct EngineSettings {
    pub scale: i32,
    pub use_cpu: bool,
}

impl EngineSettings {
    /// The scale is one the engine supports.
    pub open spec fn wf(self) -> bool {
        self.scale == 2 || self.scale == 3 || self.scale == 4
    }
}

/// Everything one native processing call needs, prepared and checked:
/// the normalized input pixels, the two buffer descriptors, and the
/// dispatch mode.
#[derive(Clone, Debug, PartialEq)]
pub struct ProcessPlan {
    pub input: PixelImage,
    pub in_desc: BufferDesc,
    pub out_desc: BufferDesc,
    pub use_cpu: bool,
}

impl ProcessPlan {
    /// The descriptors agree with the input pixels and the output buffer's
    /// byte length fits the native signed 32-bit range.
    pub open spec fn wf(self) -> bool {
        &&& self.input.wf()
        &&& self.in_desc.w == self.input.width
        &&& self.in_desc.h == self.input.height
        &&& self.in_desc.c == self.input.channels
        &&& 1 <= self.in_desc.c <= 4
        &&& 0 <= self.out_desc.w
        &&& 0 <= self.out_desc.h
        &&& self.out_desc.c == self.in_desc.c
        &&& 0 <= self.out_desc.byte_len() <= i32::MAX
    }

    /// Exactly how many bytes the native engine will have written into the
    /// output buffer on success: `out.w * out.h * out.c`.
    pub fn copy_len(&self) -> (n: usize)
        requires
            self.wf(),
        ensures
            n == self.out_desc.byte_len(),
    {
        proof {
            assert(self.out_desc.w as int * self.out_desc.h as int <= i32::MAX)
                by (nonlinear_arith)
                requires
                    0 <= self.out_desc.w,
                    0 <= self.out_desc.h,
                    1 <= self.out_desc.c,
                    self.out_desc.w as int * self.out_desc.h as int * self.out_desc.c as int
                        <= i32::MAX,
            ;
        }
        let area: i64 = self.out_desc.w as i64 * self.out_desc.h as i64;
        let total: i64 = area * self.out_desc.c as i64;
        total as usize
    }
}

/// The pixel bytes an image carries after channel normalization.
pub open spec fn normalized_data(img: PixelImage) -> Seq<u8> {
    normalized_bytes(img.channels as int, img.data@)
}

/// The dimensions a call on `img` with channel count `c` and this scale
/// must respect: width and height fit the native signed 32-bit range, and
/// so do the scaled extents and the output buffer's byte length.
pub open spec fn dims_in_range(w: int, h: int, c: int, scale: int) -> bool {
    &&& w <= i32::MAX
    &&& h <= i32::MAX
    &&& w * scale <= i32::MAX
    &&& h * scale <= i32::MAX
    &&& (w * scale) * (h * scale) * c <= i32::MAX
}

/// What a successfully prepared call looks like: the input is `img`
/// normalized, the input descriptor mirrors it, and the output descriptor
/// is exactly `width * scale` by `height * scale` with the same channels.
pub open spec fn planned(s: EngineSettings, img: PixelImage, plan: ProcessPlan) -> bool {
    &&& plan.use_cpu == s.use_cpu
    &&& plan.input.width == img.width
    &&& plan.input.height == img.height
    &&& plan.input.channels == normalized_channels(img.channels as int)
    &&& plan.input.data@ == normalized_data(img)
    &&& plan.in_desc.w == img.width
    &&& plan.in_desc.h == img.height
    &&& plan.in_desc.c == normalized_channels(img.channels as int)
    &&& plan.out_desc.w == img.width as int * s.scale as int
    &&& plan.out_desc.h == img.height as int * s.scale as int
    &&& plan.out_desc.c == normalized_channels(img.channels as int)
}

/// Prepares one native call. A dead handle is rejected before anything
/// else; then the channel count is normalized (1 -> 3, 2 -> 4); then the
/// input and output descriptors are built, the output sized at exactly
/// input times scale, rejecting extents outside the native signed 32-bit
/// range.
pub fn begin_process(settings: &EngineSettings, handle_live: bool, img: PixelImage) -> (r: Result<
    ProcessPlan,
    Error,
>)
    requires
        settings.wf(),
        img.wf(),
    ensures
        !handle_live ==> r == Err::<ProcessPlan, Error>(Error::Handle),
        handle_live && !(1 <= img.channels <= 4) ==> r == Err::<ProcessPlan, Error>(
            Error::Conversion { issue: ConversionIssue::UnsupportedChannels { channels: img.channels } },
        ),
        handle_live && 1 <= img.channels <= 4 && !dims_in_range(
            img.width as int,
            img.height as int,
            normalized_channels(img.channels as int),
            settings.scale as int,
        ) ==> r == Err::<ProcessPlan, Error>(
            Error::Conversion { issue: ConversionIssue::DimensionOverflow },
        ),
        handle_live && 1 <= img.channels <= 4 && dims_in_range(
            img.width as int,
            img.height as int,
            normalized_channels(img.channels as int),
            settings.scale as int,
        ) ==> (r matches Ok(plan) && plan.wf() && planned(*settings, img, plan)),
{
    if !handle_live {
        return Err(Error::Handle);
    }
    let norm = match normalize_channels(img) {
        Ok(n) => n,
        Err(e) => {
            return Err(e);
        },
    };
    let w = norm.width;
    let h = norm.height;
    let c = norm.channels;
    if w > i32::MAX as u32 || h > i32::MAX as u32 {
        return Err(Error::Conversion { issue: ConversionIssue::DimensionOverflow });
    }
    let scale = settings.scale;
    proof {
        assert(0 <= w as int * scale as int <= 0x7fff_ffff * 4 && 0 <= h as int * scale as int
            <= 0x7fff_ffff * 4) by (nonlinear_arith)
            requires
                0 <= w as int <= 0x7fff_ffff,
                0 <= h as int <= 0x7fff_ffff,
                2 <= scale <= 4,
        ;
    }
    let out_w: i64 = w as i64 * scale as i64;
    let out_h: i64 = h as i64 * scale as i64;
    if out_w > i32::MAX as i64 || out_h > i32::MAX as i64 {
        return Err(Error::Conversion { issue: ConversionIssue::DimensionOverflow });
    }
    proof {
        assert(0 <= out_w as int * out_h as int <= 0x8000_0000 * 0x8000_0000)
            by (nonlinear_arith)
            requires
                0 <= out_w <= 0x8000_0000,
                0 <= out_h <= 0x8000_0000,
        ;
        assert(out_w as int * out_h as int * c as int <= 0x8000_0000 * 0x8000_0000 * 4)
            by (nonlinear_arith)
            requires
                0 <= out_w <= 0x8000_0000,
                0 <= out_h <= 0x8000_0000,
                1 <= c <= 4,
        ;
    }
    let total: i128 = out_w as i128 * out_h as i128 * c as i128;
    if total > i32::MAX as i128 {
        return Err(Error::Conversion { issue: ConversionIssue::DimensionOverflow });
    }
    let in_desc = BufferDesc { w: w as i32, h: h as i32, c: c as i32 };
    let out_desc = BufferDesc { w: out_w as i32, h: out_h as i32, c: c as i32 };
    Ok(ProcessPlan { input: norm, in_desc, out_desc, use_cpu: settings.use_cpu })
}

/// Completes one native call. A nonzero status fails with ProcessingError
/// and no buffer content is taken over; on success the copied bytes are
/// rebuilt into an image of exactly the planned output extents.
pub fn finish_process(plan: &ProcessPlan, status: i32, bytes: Vec<u8>) -> (r: Result<
    PixelImage,
    Error,
>)
    requires
        plan.wf(),
    ensures
        status != 0 ==> r == Err::<PixelImage, Error>(Error::Processing { status }),
        status == 0 && bytes@.len() != plan.out_desc.byte_len() ==> r == Err::<PixelImage, Error>(
            Error::Conversion { issue: ConversionIssue::LengthMismatch },
        ),
        status == 0 && bytes@.len() == plan.out_desc.byte_len() ==> (r matches Ok(img)
            && img.width == plan.out_desc.w && img.height == plan.out_desc.h && img.channels
            == plan.out_desc.c && img.data@ == bytes@ && img.wf()),
{
    if status != 0 {
        return Err(Error::Processing { status });
    }
    reconstruct(plan.out_desc.w as u32, plan.out_desc.h as u32, plan.out_desc.c as u8, bytes)
}

/// Repeating a call changes nothing about its geometry: any two plans
/// prepared from the same settings and the same image agree on both
/// descriptors, and the output extents are exactly the input extents
/// times the scale.
pub proof fn lemma_repeat_process_same_dimensions(
    s: EngineSettings,
    img: PixelImage,
    p1: ProcessPlan,
    p2: ProcessPlan,
)
    requires
        planned(s, img, p1),
        planned(s, img, p2),
    ensures
        p1.in_desc == p2.in_desc,
        p1.out_desc == p2.out_desc,
        p1.out_desc.w == img.width as int * s.scale as int,
        p1.out_desc.h == img.height as int * s.scale as int,
{
}

} // verus!
