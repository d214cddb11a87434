use as2p_server::encoder::{encoder_settings, validate_config, BitrateSetting, EncoderSettings};

#[test]
fn test_validate_config_normal() {
    let (br, comp) = validate_config(160_000, 5);
    assert_eq!(br, 160_000);
    assert_eq!(comp, 5);
}

#[test]
fn test_validate_config_too_low() {
    let (br, comp) = validate_config(500, -1);
    assert_eq!(br, 16_000);
    assert_eq!(comp, 0);
}

#[test]
fn test_validate_config_too_high() {
    let (br, comp) = validate_config(1_000_000, 15);
    assert_eq!(br, 512_000);
    assert_eq!(comp, 10);
}

#[test]
fn validate_config_keeps_bounds_themselves() {
    assert_eq!(validate_config(16_000, 0), (16_000, 0));
    assert_eq!(validate_config(512_000, 10), (512_000, 10));
    assert_eq!(validate_config(i32::MIN, i32::MIN), (16_000, 0));
    assert_eq!(validate_config(i32::MAX, i32::MAX), (512_000, 10));
}

#[test]
fn validate_config_twice_is_once() {
    for &(b, c) in &[(500, -1), (1_000_000, 15), (64_000, 7), (-3, 11)] {
        let once = validate_config(b, c);
        assert_eq!(validate_config(once.0, once.1), once);
    }
}

#[test]
fn encoder_settings_are_validated() {
    assert_eq!(
        encoder_settings(1_000_000, 15),
        EncoderSettings { bitrate: BitrateSetting::BitsPerSecond(512_000), complexity: 10 }
    );
    assert_eq!(
        encoder_settings(-5, -5),
        EncoderSettings { bitrate: BitrateSetting::BitsPerSecond(16_000), complexity: 0 }
    );
    assert_eq!(
        encoder_settings(96_000, 3),
        EncoderSettings { bitrate: BitrateSetting::BitsPerSecond(96_000), complexity: 3 }
    );
}
