use vstd::prelude::*;

verus! {

/// Why a pixel-buffer conversion failed.
#[derive(Clone, Copy, Debug, PartialEq, Eq, Structural)]
pub enum ConversionIssue {
    /// A width, height, or buffer length does not fit the native signed
    /// 32-bit range.
    DimensionOverflow,
    /// The channel count is outside the supported range `1..=4`.
    UnsupportedChannels { channels: u8 },
    /// The byte buffer does not hold exactly `width * height * channels` bytes.
    LengthMismatch,
    /// The encoded bytes could not be decoded into a pixel grid.
    DecodeFailed,
    /// The pixel grid could not be re-encoded.
    EncodeFailed,
}

/// Why loading the model bytes into a native context failed.
#[derive(Clone, Copy, Debug, PartialEq, Eq, Structural)]
pub enum LoadIssue {
    /// An in-memory stream view over the model bytes could not be created.
    StreamUnavailable,
    /// The native loader reported a nonzero status.
    NativeStatus { status: i32 },
}

/// Every failure this library reports.
#[derive(Clone, Copy, Debug, PartialEq, Eq, Structural)]
pub enum Error {
    /// The configured scale is outside `{2, 3, 4}`.
    InvalidScale { scale: i32 },
    /// A model byte source could not be resolved, for example because a
    /// referenced file was missing or unreadable, or the bytes were empty.
    Configuration,
    /// The requested device index is not below the reported device count.
    Device { requested: i32, available: i32 },
    /// The model bytes could not be loaded into the native context.
    Load { cause: LoadIssue },
    /// The native processing call reported a nonzero status.
    Processing { status: i32 },
    /// A pixel buffer could not be marshalled across the native boundary.
    Conversion { issue: ConversionIssue },
    /// The handle no longer holds a live native context.
    Handle,
}

} // verus!
