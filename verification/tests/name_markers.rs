use realcugan_rs::naming::{infer_noise, infer_scale, str_contains};

#[test]
fn substring_search_matches_plainly() {
    assert!(str_contains("up2x-conservative.param", "conservative"));
    assert!(str_contains("abc", ""));
    assert!(!str_contains("", "a"));
    assert!(!str_contains("up2x.param", "conservative"));
    assert!(str_contains("xx", "xx"));
}

#[test]
fn noise_markers_are_read_in_order() {
    assert_eq!(infer_noise("up2x-no-denoise.param"), Some(0));
    assert_eq!(infer_noise("up3x-conservative.param"), Some(-1));
    assert_eq!(infer_noise("up2x-denoise3x.param"), Some(3));
    assert_eq!(infer_noise("up2x-denoise1x.param"), Some(1));
    assert_eq!(infer_noise("model.param"), None);
    // `no-denoise` holds `denoise` with no digit after it, so nothing
    // else fires.
    assert_eq!(infer_noise("no-denoise"), Some(0));
    // The leftmost `denoise{N}x` marker wins.
    assert_eq!(infer_noise("denoise2x-denoise3x"), Some(2));
}

#[test]
fn scale_markers_are_read() {
    assert_eq!(infer_scale("up2x-no-denoise.param"), Some(2));
    assert_eq!(infer_scale("models/up3x-thing.param"), Some(3));
    assert_eq!(infer_scale("up4x"), Some(4));
    assert_eq!(infer_scale("upscale.param"), None);
    assert_eq!(infer_scale("up.param"), None);
}
