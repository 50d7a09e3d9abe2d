use vstd::prelude::*;

use crate::naming::infer_noise;
use crate::naming::infer_scale;
use crate::naming::inferred_noise;
use crate::naming::inferred_scale;
use crate::params::resolve_sync_gap;

verus! {

/// The native concurrency knob for tile-boundary synchronization,
/// offered to callers as four named levels.
#[derive(Debug, Copy, Clone, PartialEq, Eq, Structural)]
pub enum SyncGap {
    Disabled,
    Loose,
    Moderate,
    Strict,
}

impl SyncGap {
    /// The numeric level the native engine takes: 0 through 3.
    pub open spec fn spec_level(self) -> int {
        match self {
            SyncGap::Disabled => 0,
            SyncGap::Loose => 1,
            SyncGap::Moderate => 2,
            SyncGap::Strict => 3,
        }
    }

    /// The numeric level the native engine takes: 0 through 3.
    pub fn level(self) -> (r: i32)
        ensures
            r == self.spec_level(),
    {
        match self {
            SyncGap::Disabled => 0,
            SyncGap::Loose => 1,
            SyncGap::Moderate => 2,
            SyncGap::Strict => 3,
        }
    }
}

/// The named model presets: three families, each at its scales and
/// denoise strengths. One data table below maps every preset to its
/// numeric parameters and its conventional file pair.
#[derive(Debug, Copy, Clone, PartialEq, Eq, Structural)]
pub enum Model {
    Se2xNoDenoise,
    Se2xConservative,
    Se2xLowDenoise,
    Se2xMediumDenoise,
    Se2xHighDenoise,
    Se3xNoDenoise,
    Se3xConservative,
    Se3xHighDenoise,
    Se4xNoDenoise,
    Se4xConservative,
    Se4xHighDenoise,
    Pro2xNoDenoise,
    Pro2XConservative,
    Pro2XHighDenoise,
    Pro3xNoDenoise,
    Pro3XConservative,
    Pro3XHighDenoise,
    Nose2xNoDenoise,
}

impl Model {
    /// The scale this preset's model upscales by.
    pub open spec fn spec_scale(self) -> int {
        match self {
            Model::Se3xNoDenoise => 3,
            Model::Se3xConservative => 3,
            Model::Se3xHighDenoise => 3,
            Model::Pro3xNoDenoise => 3,
            Model::Pro3XConservative => 3,
            Model::Pro3XHighDenoise => 3,
            Model::Se4xNoDenoise => 4,
            Model::Se4xConservative => 4,
            Model::Se4xHighDenoise => 4,
            _ => 2,
        }
    }

    /// The denoise strength this preset's model was trained for.
    pub open spec fn spec_noise(self) -> int {
        match self {
            Model::Se2xConservative => -1,
            Model::Se3xConservative => -1,
            Model::Se4xConservative => -1,
            Model::Pro2XConservative => -1,
            Model::Pro3XConservative => -1,
            Model::Se2xLowDenoise => 1,
            Model::Se2xMediumDenoise => 2,
            Model::Se2xHighDenoise => 3,
            Model::Se3xHighDenoise => 3,
            Model::Se4xHighDenoise => 3,
            Model::Pro2XHighDenoise => 3,
            Model::Pro3XHighDenoise => 3,
            _ => 0,
        }
    }

    /// Whether this preset's family lets the sync gap be tuned. The `se`
    /// family disallows it as an architectural constraint, so the gap is
    /// forced to 0 for its models whatever was configured.
    pub open spec fn spec_allows_sync_gap(self) -> bool {
        match self {
            Model::Se2xNoDenoise => false,
            Model::Se2xConservative => false,
            Model::Se2xLowDenoise => false,
            Model::Se2xMediumDenoise => false,
            Model::Se2xHighDenoise => false,
            Model::Se3xNoDenoise => false,
            Model::Se3xConservative => false,
            Model::Se3xHighDenoise => false,
            Model::Se4xNoDenoise => false,
            Model::Se4xConservative => false,
            Model::Se4xHighDenoise => false,
            _ => true,
        }
    }

    /// The conventional parameter-file path for this preset:
    /// `model-family/up{scale}x-{suffix}.param`.
    pub open spec fn spec_param_path(self) -> Seq<char> {
        match self {
            Model::Se2xNoDenoise => "models-se/up2x-no-denoise.param"@,
            Model::Se2xConservative => "models-se/up2x-conservative.param"@,
            Model::Se2xLowDenoise => "models-se/up2x-denoise1x.param"@,
            Model::Se2xMediumDenoise => "models-se/up2x-denoise2x.param"@,
            Model::Se2xHighDenoise => "models-se/up2x-denoise3x.param"@,
            Model::Se3xNoDenoise => "models-se/up3x-no-denoise.param"@,
            Model::Se3xConservative => "models-se/up3x-conservative.param"@,
            Model::Se3xHighDenoise => "models-se/up3x-denoise3x.param"@,
            Model::Se4xNoDenoise => "models-se/up4x-no-denoise.param"@,
            Model::Se4xConservative => "models-se/up4x-conservative.param"@,
            Model::Se4xHighDenoise => "models-se/up4x-denoise3x.param"@,
            Model::Pro2xNoDenoise => "models-pro/up2x-no-denoise.param"@,
            Model::Pro2XConservative => "models-pro/up2x-conservative.param"@,
            Model::Pro2XHighDenoise => "models-pro/up2x-denoise3x.param"@,
            Model::Pro3xNoDenoise => "models-pro/up3x-no-denoise.param"@,
            Model::Pro3XConservative => "models-pro/up3x-conservative.param"@,
            Model::Pro3XHighDenoise => "models-pro/up3x-denoise3x.param"@,
            Model::Nose2xNoDenoise => "models-nose/up2x-no-denoise.param"@,
        }
    }

    /// The conventional weight-file path for this preset:
    /// `model-family/up{scale}x-{suffix}.bin`.
    pub open spec fn spec_bin_path(self) -> Seq<char> {
        match self {
            Model::Se2xNoDenoise => "models-se/up2x-no-denoise.bin"@,
            Model::Se2xConservative => "models-se/up2x-conservative.bin"@,
            Model::Se2xLowDenoise => "models-se/up2x-denoise1x.bin"@,
            Model::Se2xMediumDenoise => "models-se/up2x-denoise2x.bin"@,
            Model::Se2xHighDenoise => "models-se/up2x-denoise3x.bin"@,
            Model::Se3xNoDenoise => "models-se/up3x-no-denoise.bin"@,
            Model::Se3xConservative => "models-se/up3x-conservative.bin"@,
            Model::Se3xHighDenoise => "models-se/up3x-denoise3x.bin"@,
            Model::Se4xNoDenoise => "models-se/up4x-no-denoise.bin"@,
            Model::Se4xConservative => "models-se/up4x-conservative.bin"@,
            Model::Se4xHighDenoise => "models-se/up4x-denoise3x.bin"@,
            Model::Pro2xNoDenoise => "models-pro/up2x-no-denoise.bin"@,
            Model::Pro2XConservative => "models-pro/up2x-conservative.bin"@,
            Model::Pro2XHighDenoise => "models-pro/up2x-denoise3x.bin"@,
            Model::Pro3xNoDenoise => "models-pro/up3x-no-denoise.bin"@,
            Model::Pro3XConservative => "models-pro/up3x-conservative.bin"@,
            Model::Pro3XHighDenoise => "models-pro/up3x-denoise3x.bin"@,
            Model::Nose2xNoDenoise => "models-nose/up2x-no-denoise.bin"@,
        }
    }

    /// The scale this preset's model upscales by.
    pub fn scale(self) -> (r: i32)
        ensures
            r == self.spec_scale(),
    {
        match self {
            Model::Se3xNoDenoise => 3,
            Model::Se3xConservative => 3,
            Model::Se3xHighDenoise => 3,
            Model::Pro3xNoDenoise => 3,
            Model::Pro3XConservative => 3,
            Model::Pro3XHighDenoise => 3,
            Model::Se4xNoDenoise => 4,
            Model::Se4xConservative => 4,
            Model::Se4xHighDenoise => 4,
            _ => 2,
        }
    }

    /// The denoise strength this preset's model was trained for.
    pub fn noise(self) -> (r: i32)
        ensures
            r == self.spec_noise(),
    {
        match self {
            Model::Se2xConservative => -1,
            Model::Se3xConservative => -1,
            Model::Se4xConservative => -1,
            Model::Pro2XConservative => -1,
            Model::Pro3XConservative => -1,
            Model::Se2xLowDenoise => 1,
            Model::Se2xMediumDenoise => 2,
            Model::Se2xHighDenoise => 3,
            Model::Se3xHighDenoise => 3,
            Model::Se4xHighDenoise => 3,
            Model::Pro2XHighDenoise => 3,
            Model::Pro3XHighDenoise => 3,
            _ => 0,
        }
    }

    /// Whether this preset's family lets the sync gap be tuned.
    pub fn allows_sync_gap(self) -> (r: bool)
        ensures
            r == self.spec_allows_sync_gap(),
    {
        match self {
            Model::Pro2xNoDenoise => true,
            Model::Pro2XConservative => true,
            Model::Pro2XHighDenoise => true,
            Model::Pro3xNoDenoise => true,
            Model::Pro3XConservative => true,
            Model::Pro3XHighDenoise => true,
            Model::Nose2xNoDenoise => true,
            _ => false,
        }
    }

    /// The conventional parameter-file path for this preset.
    pub fn param_path(self) -> (r: &'static str)
        ensures
            r@ == self.spec_param_path(),
    {
        match self {
            Model::Se2xNoDenoise => "models-se/up2x-no-denoise.param",
            Model::Se2xConservative => "models-se/up2x-conservative.param",
            Model::Se2xLowDenoise => "models-se/up2x-denoise1x.param",
            Model::Se2xMediumDenoise => "models-se/up2x-denoise2x.param",
            Model::Se2xHighDenoise => "models-se/up2x-denoise3x.param",
            Model::Se3xNoDenoise => "models-se/up3x-no-denoise.param",
            Model::Se3xConservative => "models-se/up3x-conservative.param",
            Model::Se3xHighDenoise => "models-se/up3x-denoise3x.param",
            Model::Se4xNoDenoise => "models-se/up4x-no-denoise.param",
            Model::Se4xConservative => "models-se/up4x-conservative.param",
            Model::Se4xHighDenoise => "models-se/up4x-denoise3x.param",
            Model::Pro2xNoDenoise => "models-pro/up2x-no-denoise.param",
            Model::Pro2XConservative => "models-pro/up2x-conservative.param",
            Model::Pro2XHighDenoise => "models-pro/up2x-denoise3x.param",
            Model::Pro3xNoDenoise => "models-pro/up3x-no-denoise.param",
            Model::Pro3XConservative => "models-pro/up3x-conservative.param",
            Model::Pro3XHighDenoise => "models-pro/up3x-denoise3x.param",
            Model::Nose2xNoDenoise => "models-nose/up2x-no-denoise.param",
        }
    }

    /// The conventional weight-file path for this preset.
    pub fn bin_path(self) -> (r: &'static str)
        ensures
            r@ == self.spec_bin_path(),
    {
        match self {
            Model::Se2xNoDenoise => "models-se/up2x-no-denoise.bin",
            Model::Se2xConservative => "models-se/up2x-conservative.bin",
            Model::Se2xLowDenoise => "models-se/up2x-denoise1x.bin",
            Model::Se2xMediumDenoise => "models-se/up2x-denoise2x.bin",
            Model::Se2xHighDenoise => "models-se/up2x-denoise3x.bin",
            Model::Se3xNoDenoise => "models-se/up3x-no-denoise.bin",
            Model::Se3xConservative => "models-se/up3x-conservative.bin",
            Model::Se3xHighDenoise => "models-se/up3x-denoise3x.bin",
            Model::Se4xNoDenoise => "models-se/up4x-no-denoise.bin",
            Model::Se4xConservative => "models-se/up4x-conservative.bin",
            Model::Se4xHighDenoise => "models-se/up4x-denoise3x.bin",
            Model::Pro2xNoDenoise => "models-pro/up2x-no-denoise.bin",
            Model::Pro2XConservative => "models-pro/up2x-conservative.bin",
            Model::Pro2XHighDenoise => "models-pro/up2x-denoise3x.bin",
            Model::Pro3xNoDenoise => "models-pro/up3x-no-denoise.bin",
            Model::Pro3XConservative => "models-pro/up3x-conservative.bin",
            Model::Pro3XHighDenoise => "models-pro/up3x-denoise3x.bin",
            Model::Nose2xNoDenoise => "models-nose/up2x-no-denoise.bin",
        }
    }
}

/// Where the model bytes will come from.
#[derive(Debug, Clone)]
pub enum ByteSource {
    /// An explicit parameter-file / weight-file pair.
    Files { param_path: String, bin_path: String },
    /// Bytes the caller supplies directly.
    Bytes { param: Vec<u8>, bin: Vec<u8> },
    /// A named preset, resolved to its conventional file pair.
    Preset { model: Model },
}

/// A byte source with any preset already turned into its file pair.
#[derive(Debug, Clone)]
pub enum ResolvedSource {
    /// Read the pair of files at these paths.
    Files { param_path: String, bin_path: String },
    /// Use these bytes as they stand.
    Bytes { param: Vec<u8>, bin: Vec<u8> },
}

/// The numeric parameters native construction needs, fully resolved.
#[derive(Debug, Copy, Clone, PartialEq, Eq, Structural)]
pub struct ResolvedSettings {
    pub gpu: i32,
    pub threads: i32,
    pub tta: bool,
    pub sync_gap: i32,
    pub tile_size: i32,
    pub scale: i32,
    pub noise: i32,
}

/// Everything a build step consumes: the resolved numeric parameters and
/// the resolved byte source.
#[derive(Debug, Clone)]
pub struct Resolved {
    pub settings: ResolvedSettings,
    pub source: ResolvedSource,
}

/// A mutable configuration value with fluent setters. It accumulates the
/// device selector, performance knobs and a model byte source, and is
/// consumed exactly once by `resolve`.
#[derive(Debug, Clone)]
pub struct Builder {
    pub gpu: i32,
    pub tile_size: i32,
    pub sync_gap: i32,
    pub threads: i32,
    pub tta: bool,
    pub scale: i32,
    pub noise: i32,
    pub allow_sync_gap: bool,
    pub source: ByteSource,
}

impl Builder {
    /// The starting configuration: device 0, no tile override, strict sync
    /// gap, one thread, no augmentation, scale 2, conservative denoise,
    /// empty model bytes.
    pub open spec fn is_default(b: Builder) -> bool {
        &&& b.gpu == 0
        &&& b.tile_size == 0
        &&& b.sync_gap == 3
        &&& b.threads == 1
        &&& b.tta == false
        &&& b.scale == 2
        &&& b.noise == -1
        &&& b.allow_sync_gap == true
        &&& b.source matches ByteSource::Bytes { param, bin } && param@ == Seq::<u8>::empty()
            && bin@ == Seq::<u8>::empty()
    }

    /// A configuration with every option at its starting value.
    pub fn new() -> (r: Builder)
        ensures
            Builder::is_default(r),
    {
        Builder {
            gpu: 0,
            tile_size: 0,
            sync_gap: 3,
            threads: 1,
            tta: false,
            scale: 2,
            noise: -1,
            allow_sync_gap: true,
            source: ByteSource::Bytes { param: Vec::new(), bin: Vec::new() },
        }
    }

    /// Selects the GPU device with this index. The index must fit the
    /// native signed 32-bit range.
    pub fn gpu(self, gpu: u32) -> (r: Builder)
        requires
            gpu <= i32::MAX as u32,
        ensures
            r == (Builder { gpu: gpu as i32, ..self }),
    {
        Builder { gpu: gpu as i32, ..self }
    }

    /// Selects CPU-only inference (the device sentinel -1).
    pub fn cpu(self) -> (r: Builder)
        ensures
            r == (Builder { gpu: -1i32, ..self }),
    {
        Builder { gpu: -1, ..self }
    }

    /// Turns test-time augmentation on.
    pub fn tta(self) -> (r: Builder)
        ensures
            r == (Builder { tta: true, ..self }),
    {
        Builder { tta: true, ..self }
    }

    /// Overrides the tile size; a nonzero value wins over the heap-budget
    /// heuristic verbatim. The size must fit the native signed 32-bit
    /// range.
    pub fn tile_size(self, tile_size: u32) -> (r: Builder)
        requires
            tile_size <= i32::MAX as u32,
        ensures
            r == (Builder { tile_size: tile_size as i32, ..self }),
    {
        Builder { tile_size: tile_size as i32, ..self }
    }

    /// Configures the sync-gap level.
    pub fn sync_gap(self, sync_gap: SyncGap) -> (r: Builder)
        ensures
            r == (Builder { sync_gap: sync_gap.spec_level() as i32, ..self }),
    {
        let level = sync_gap.level();
        Builder { sync_gap: level, ..self }
    }

    /// Sets how many threads the native context may use.
    pub fn threads(self, threads: i32) -> (r: Builder)
        ensures
            r == (Builder { threads, ..self }),
    {
        Builder { threads, ..self }
    }

    /// Sets the scale factor the model is expected to upscale by.
    pub fn scale(self, scale: i32) -> (r: Builder)
        ensures
            r == (Builder { scale, ..self }),
    {
        Builder { scale, ..self }
    }

    /// Sets the denoise strength the model is expected to apply.
    pub fn noise(self, noise: i32) -> (r: Builder)
        ensures
            r == (Builder { noise, ..self }),
    {
        Builder { noise, ..self }
    }

    /// Points the model source at an explicit parameter-file /
    /// weight-file pair.
    pub fn model_files(self, param_file: String, bin_file: String) -> (r: Builder)
        ensures
            r == (Builder {
                source: ByteSource::Files { param_path: param_file, bin_path: bin_file },
                ..self
            }),
    {
        Builder {
            source: ByteSource::Files { param_path: param_file, bin_path: bin_file },
            ..self
        }
    }

    /// Hands the model bytes over directly.
    pub fn model_bytes(self, param: Vec<u8>, bin: Vec<u8>) -> (r: Builder)
        ensures
            r == (Builder { source: ByteSource::Bytes { param, bin }, ..self }),
    {
        Builder { source: ByteSource::Bytes { param, bin }, ..self }
    }

    /// Chooses a named preset: its scale, denoise strength and sync-gap
    /// constraint are taken from the preset table.
    pub fn model(self, model: Model) -> (r: Builder)
        ensures
            r == (Builder {
                scale: model.spec_scale() as i32,
                noise: model.spec_noise() as i32,
                allow_sync_gap: model.spec_allows_sync_gap(),
                source: ByteSource::Preset { model },
                ..self
            }),
    {
        let scale = model.scale();
        let noise = model.noise();
        let allow_sync_gap = model.allows_sync_gap();
        Builder { scale, noise, allow_sync_gap, source: ByteSource::Preset { model }, ..self }
    }
}

impl Builder {
    /// Consumes the configuration exactly once. Any preset is turned into
    /// its conventional file pair; an explicit parameter file's name may
    /// announce the noise and scale, which then override the configured
    /// values; and the sync gap is resolved against the model family's
    /// constraint.
    pub fn resolve(self) -> (r: Resolved)
        ensures
            r.settings.gpu == self.gpu,
            r.settings.threads == self.threads,
            r.settings.tta == self.tta,
            r.settings.tile_size == self.tile_size,
            r.settings.sync_gap == (if self.allow_sync_gap {
                self.sync_gap as int
            } else {
                0
            }),
            self.source matches ByteSource::Bytes { param, bin } ==> (r.source matches
                ResolvedSource::Bytes { param: rp, bin: rb } && rp == param && rb == bin
                && r.settings.scale == self.scale && r.settings.noise == self.noise),
            self.source matches ByteSource::Preset { model } ==> (r.source matches
                ResolvedSource::Files { param_path, bin_path } && param_path@
                == model.spec_param_path() && bin_path@ == model.spec_bin_path()
                && r.settings.scale == self.scale && r.settings.noise == self.noise),
            self.source matches ByteSource::Files { param_path, bin_path } ==> (r.source matches
                ResolvedSource::Files { param_path: rp, bin_path: rb } && rp == param_path
                && rb == bin_path && r.settings.scale == (match inferred_scale(param_path@) {
                Some(v) => v as int,
                None => self.scale as int,
            }) && r.settings.noise == (match inferred_noise(param_path@) {
                Some(v) => v as int,
                None => self.noise as int,
            })),
    {
        let Builder { gpu, tile_size, sync_gap, threads, tta, scale, noise, allow_sync_gap, source } =
            self;
        let resolved_gap = resolve_sync_gap(allow_sync_gap, sync_gap);
        match source {
            ByteSource::Bytes { param, bin } => Resolved {
                settings: ResolvedSettings {
                    gpu,
                    threads,
                    tta,
                    sync_gap: resolved_gap,
                    tile_size,
                    scale,
                    noise,
                },
                source: ResolvedSource::Bytes { param, bin },
            },
            ByteSource::Preset { model } => Resolved {
                settings: ResolvedSettings {
                    gpu,
                    threads,
                    tta,
                    sync_gap: resolved_gap,
                    tile_size,
                    scale,
                    noise,
                },
                source: ResolvedSource::Files {
                    param_path: model.param_path().to_owned(),
                    bin_path: model.bin_path().to_owned(),
                },
            },
            ByteSource::Files { param_path, bin_path } => {
                let scale = match infer_scale(param_path.as_str()) {
                    Some(v) => v,
                    None => scale,
                };
                let noise = match infer_noise(param_path.as_str()) {
                    Some(v) => v,
                    None => noise,
                };
                Resolved {
                    settings: ResolvedSettings {
                        gpu,
                        threads,
                        tta,
                        sync_gap: resolved_gap,
                        tile_size,
                        scale,
                        noise,
                    },
                    source: ResolvedSource::Files { param_path, bin_path },
                }
            },
        }
    }
}

impl Default for Builder {
    /// The starting configuration, as `new` builds it.
    fn default() -> (r: Builder)
        ensures
            Builder::is_default(r),
    {
        Builder::new()
    }
}

} // verus!
