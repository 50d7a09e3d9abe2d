use realcugan_rs::config::{Builder, ByteSource, Model, ResolvedSource, SyncGap};

#[test]
fn defaults_match_the_documented_start() {
    let b = Builder::new();
    assert_eq!(b.gpu, 0);
    assert_eq!(b.tile_size, 0);
    assert_eq!(b.sync_gap, 3);
    assert_eq!(b.threads, 1);
    assert!(!b.tta);
    assert_eq!(b.scale, 2);
    assert_eq!(b.noise, -1);
    assert!(b.allow_sync_gap);
    match b.source {
        ByteSource::Bytes { param, bin } => {
            assert!(param.is_empty());
            assert!(bin.is_empty());
        },
        _ => panic!("default source should be empty bytes"),
    }
}

#[test]
fn fluent_setters_accumulate() {
    let b = Builder::new()
        .gpu(2)
        .tta()
        .tile_size(256)
        .sync_gap(SyncGap::Loose)
        .threads(8)
        .scale(3)
        .noise(2);
    assert_eq!(b.gpu, 2);
    assert!(b.tta);
    assert_eq!(b.tile_size, 256);
    assert_eq!(b.sync_gap, 1);
    assert_eq!(b.threads, 8);
    assert_eq!(b.scale, 3);
    assert_eq!(b.noise, 2);

    let b = b.cpu();
    assert_eq!(b.gpu, -1);
}

#[test]
fn sync_gap_levels() {
    assert_eq!(Builder::new().sync_gap(SyncGap::Disabled).sync_gap, 0);
    assert_eq!(Builder::new().sync_gap(SyncGap::Loose).sync_gap, 1);
    assert_eq!(Builder::new().sync_gap(SyncGap::Moderate).sync_gap, 2);
    assert_eq!(Builder::new().sync_gap(SyncGap::Strict).sync_gap, 3);
}

#[test]
fn preset_table_values() {
    assert_eq!(Model::Se2xConservative.scale(), 2);
    assert_eq!(Model::Se2xConservative.noise(), -1);
    assert!(!Model::Se2xConservative.allows_sync_gap());
    assert_eq!(Model::Se2xConservative.param_path(), "models-se/up2x-conservative.param");
    assert_eq!(Model::Se2xConservative.bin_path(), "models-se/up2x-conservative.bin");

    assert_eq!(Model::Pro3XHighDenoise.scale(), 3);
    assert_eq!(Model::Pro3XHighDenoise.noise(), 3);
    assert!(Model::Pro3XHighDenoise.allows_sync_gap());
    assert_eq!(Model::Pro3XHighDenoise.param_path(), "models-pro/up3x-denoise3x.param");

    assert_eq!(Model::Se4xNoDenoise.scale(), 4);
    assert_eq!(Model::Se4xNoDenoise.noise(), 0);
    assert_eq!(Model::Se4xNoDenoise.bin_path(), "models-se/up4x-no-denoise.bin");

    assert_eq!(Model::Nose2xNoDenoise.scale(), 2);
    assert_eq!(Model::Nose2xNoDenoise.noise(), 0);
    assert!(Model::Nose2xNoDenoise.allows_sync_gap());
    assert_eq!(Model::Nose2xNoDenoise.param_path(), "models-nose/up2x-no-denoise.param");

    assert_eq!(Model::Se2xLowDenoise.noise(), 1);
    assert_eq!(Model::Se2xMediumDenoise.noise(), 2);
    assert_eq!(Model::Se2xHighDenoise.noise(), 3);
}

#[test]
fn preset_forces_sync_gap_to_zero() {
    // The `se` family disallows sync-gap tuning; resolution forces 0 even
    // though Strict (3) was configured.
    let resolved = Builder::new().sync_gap(SyncGap::Strict).model(Model::Se2xConservative).resolve();
    assert_eq!(resolved.settings.sync_gap, 0);
    assert_eq!(resolved.settings.scale, 2);
    assert_eq!(resolved.settings.noise, -1);
    match resolved.source {
        ResolvedSource::Files { param_path, bin_path } => {
            assert_eq!(param_path, "models-se/up2x-conservative.param");
            assert_eq!(bin_path, "models-se/up2x-conservative.bin");
        },
        _ => panic!("a preset resolves to its conventional file pair"),
    }

    // The `pro` family keeps the configured gap.
    let resolved = Builder::new().sync_gap(SyncGap::Moderate).model(Model::Pro2xNoDenoise).resolve();
    assert_eq!(resolved.settings.sync_gap, 2);
}

#[test]
fn explicit_files_infer_noise_and_scale_from_the_name() {
    let resolved = Builder::new()
        .model_files("models/up3x-denoise2x.param".to_string(), "models/up3x-denoise2x.bin".to_string())
        .resolve();
    assert_eq!(resolved.settings.scale, 3);
    assert_eq!(resolved.settings.noise, 2);

    let resolved = Builder::new()
        .model_files("up4x-no-denoise.param".to_string(), "up4x-no-denoise.bin".to_string())
        .resolve();
    assert_eq!(resolved.settings.scale, 4);
    assert_eq!(resolved.settings.noise, 0);

    let resolved = Builder::new()
        .model_files("up2x-conservative.param".to_string(), "up2x-conservative.bin".to_string())
        .resolve();
    assert_eq!(resolved.settings.scale, 2);
    assert_eq!(resolved.settings.noise, -1);
}

#[test]
fn inference_precedence_and_fallback() {
    // `no-denoise` wins over the `denoise{N}x` reading of the same name.
    let resolved = Builder::new()
        .noise(3)
        .scale(4)
        .model_files("plain-model.param".to_string(), "plain-model.bin".to_string())
        .resolve();
    // Nothing inferred: the configured values stand.
    assert_eq!(resolved.settings.scale, 4);
    assert_eq!(resolved.settings.noise, 3);

    // `conservative` wins over a later `denoise{N}x` marker.
    let resolved = Builder::new()
        .model_files("a-conservative-denoise3x.param".to_string(), "b.bin".to_string())
        .resolve();
    assert_eq!(resolved.settings.noise, -1);

    // A plain `denoise{N}x` marker is read out.
    let resolved = Builder::new()
        .model_files("up2x-denoise1x.param".to_string(), "up2x-denoise1x.bin".to_string())
        .resolve();
    assert_eq!(resolved.settings.noise, 1);
    assert_eq!(resolved.settings.scale, 2);
}

#[test]
fn model_bytes_pass_through_resolution() {
    let resolved = Builder::new()
        .cpu()
        .scale(2)
        .noise(0)
        .model_bytes(vec![1, 2, 3], vec![4, 5])
        .resolve();
    assert_eq!(resolved.settings.gpu, -1);
    assert_eq!(resolved.settings.scale, 2);
    assert_eq!(resolved.settings.noise, 0);
    match resolved.source {
        ResolvedSource::Bytes { param, bin } => {
            assert_eq!(param, vec![1, 2, 3]);
            assert_eq!(bin, vec![4, 5]);
        },
        _ => panic!("explicit bytes resolve to themselves"),
    }
}
