use shepard_synth::quantize::to_sample;

#[test]
fn silence_maps_to_the_bias_point() {
    // A displacement of 0.0 scales and truncates to 0.
    assert_eq!(to_sample(0), 127);
}

#[test]
fn full_scale_displacements() {
    // 1.0 * 127 and -1.0 * 127 stay inside the signed byte range.
    assert_eq!(to_sample(127), 254);
    assert_eq!(to_sample(-127), 0);
}

#[test]
fn overdriven_displacements_wrap_rather_than_saturate() {
    // 1.5 * 127 truncates to 190; wraparound turns it into 190 - 256 = -66
    // before the bias, so the byte is 61.  A saturating quantizer would
    // have produced 254.
    assert_eq!(to_sample(190), 61);
    assert_ne!(to_sample(190), 254);
    // -1.5 * 127 truncates to -190; wraparound gives -190 + 256 = 66, so
    // the byte is 66 + 127 = 193.  Saturation would have produced 0.
    assert_eq!(to_sample(-190), 193);
    assert_ne!(to_sample(-190), 0);
}

#[test]
fn quantizer_is_deterministic() {
    for scaled in [-300i64, -128, -1, 0, 1, 126, 127, 200, 1000] {
        assert_eq!(to_sample(scaled), to_sample(scaled));
    }
}

#[test]
fn quantizer_follows_float_truncation() {
    // The byte for a float displacement: scale by 127, truncate toward
    // zero, then quantize.  Spot values across the working range.
    let cases: [(f64, u8); 5] = [
        (0.0, 127),
        (0.5, 190),      // 63.5 truncates to 63
        (-0.5, 64),      // -63.5 truncates to -63
        (0.999, 253),    // 126.873 truncates to 126
        (-0.999, 1),     // -126.873 truncates to -126
    ];
    for (disp, byte) in cases {
        assert_eq!(to_sample((disp * 127.0) as i64), byte);
    }
}
