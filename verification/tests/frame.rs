use t9_led::{
    create_checksum, encode, try_encode, ConfigError, Configuration, Mode, FRAME_LEN, START_MARKER,
};

fn user_settings(mode: Mode, brightness: u8, speed: u8) -> Configuration {
    Configuration {
        device: "/dev/ttyUSB0".to_string(),
        mode,
        brightness,
        speed,
        baud_rate: 9600,
    }
}

#[test]
fn frame_constants() {
    assert_eq!(0xfa, START_MARKER);
    assert_eq!(5, FRAME_LEN);
}

#[test]
fn brightest_fastest_rainbow() {
    let frame: [u8; 5] = encode(&user_settings(Mode::Rainbow, 5, 5));
    assert_eq!([0xfa, 0x01, 0x01, 0x01, 0xfd], frame);
}

#[test]
fn dimmest_slowest_rainbow() {
    // 0xfa + 0x01 + 5 + 5 = 261 = 256 + 5
    let frame: [u8; 5] = encode(&user_settings(Mode::Rainbow, 1, 1));
    assert_eq!([0xfa, 0x01, 0x05, 0x05, 0x05], frame);
}

#[test]
fn brightest_breathing_one_below_fastest() {
    let frame: [u8; 5] = encode(&user_settings(Mode::Breathing, 5, 4));
    assert_eq!([0xfa, 0x02, 0x01, 0x02, 0xff], frame);
}

#[test]
fn brightest_rainbow_wraps_to_zero() {
    let frame: [u8; 5] = encode(&user_settings(Mode::Rainbow, 5, 2));
    assert_eq!([0xfa, 0x01, 0x01, 0x04, 0x00], frame);
}

#[test]
fn one_frame_per_mode() {
    assert_eq!([0xfa, 0x04, 0x03, 0x03, 0x04], encode(&user_settings(Mode::Off, 3, 3)));
    assert_eq!([0xfa, 0x05, 0x04, 0x02, 0x05], encode(&user_settings(Mode::Auto, 2, 4)));
    assert_eq!([0xfa, 0x01, 0x02, 0x05, 0x02], encode(&user_settings(Mode::Rainbow, 4, 1)));
    assert_eq!([0xfa, 0x02, 0x05, 0x01, 0x02], encode(&user_settings(Mode::Breathing, 1, 5)));
    assert_eq!([0xfa, 0x03, 0x03, 0x04, 0x04], encode(&user_settings(Mode::ColourCycle, 3, 2)));
}

#[test]
fn encoding_twice_gives_the_same_frame() {
    let config = user_settings(Mode::ColourCycle, 2, 5);
    let first: [u8; 5] = encode(&config);
    let second: [u8; 5] = encode(&config);
    assert_eq!(first, second);
    assert_eq!([0xfa, 0x03, 0x04, 0x01, 0x02], first);
}

#[test]
fn frame_does_not_depend_on_device_or_baud_rate() {
    let mut elsewhere = user_settings(Mode::Auto, 4, 4);
    elsewhere.device = "\\\\.\\COM9".to_string();
    elsewhere.baud_rate = 115200;
    assert_eq!(encode(&user_settings(Mode::Auto, 4, 4)), encode(&elsewhere));
}

#[test]
fn every_frame_has_five_bytes_and_starts_with_the_marker() {
    let modes: [Mode; 5] = [
        Mode::Off,
        Mode::Auto,
        Mode::Rainbow,
        Mode::Breathing,
        Mode::ColourCycle,
    ];
    for mode in modes {
        for brightness in 1..=5u8 {
            for speed in 1..=5u8 {
                let frame = encode(&user_settings(mode, brightness, speed));
                assert_eq!(5, frame.len());
                assert_eq!(0xfa, frame[0]);
                assert_eq!(u8::from(&mode), frame[1]);
                assert_eq!(6 - brightness, frame[2]);
                assert_eq!(6 - speed, frame[3]);
                let total: u32 =
                    frame[0] as u32 + frame[1] as u32 + frame[2] as u32 + frame[3] as u32;
                assert_eq!((total % 256) as u8, frame[4]);
            }
        }
    }
}

#[test]
fn frame_checksum_is_the_checksum_of_the_inverted_configuration() {
    let config = user_settings(Mode::Breathing, 2, 3);
    let mut wire = config.clone();
    wire.invert();
    let frame: [u8; 5] = encode(&config);
    assert_eq!(wire.brightness, frame[2]);
    assert_eq!(wire.speed, frame[3]);
    assert_eq!(create_checksum(&wire), frame[4]);
    assert_eq!(0x03, frame[4]);
}

#[test]
fn try_encode_gives_the_frame_of_a_valid_configuration() {
    assert_eq!(
        Ok([0xfa, 0x04, 0x05, 0x05, 0x08]),
        try_encode(&user_settings(Mode::Off, 1, 1))
    );
    assert_eq!(
        Ok([0xfa, 0x05, 0x01, 0x01, 0x01]),
        try_encode(&user_settings(Mode::Auto, 5, 5))
    );
}

#[test]
fn try_encode_refuses_a_brightness_out_of_range() {
    assert_eq!(
        Err(ConfigError::Brightness(0)),
        try_encode(&user_settings(Mode::Rainbow, 0, 3))
    );
    assert_eq!(
        Err(ConfigError::Brightness(6)),
        try_encode(&user_settings(Mode::Rainbow, 6, 3))
    );
    assert_eq!(
        Err(ConfigError::Brightness(255)),
        try_encode(&user_settings(Mode::Rainbow, 255, 3))
    );
}

#[test]
fn try_encode_refuses_a_speed_out_of_range() {
    assert_eq!(
        Err(ConfigError::Speed(0)),
        try_encode(&user_settings(Mode::Rainbow, 3, 0))
    );
    assert_eq!(
        Err(ConfigError::Speed(6)),
        try_encode(&user_settings(Mode::Rainbow, 3, 6))
    );
}

#[test]
fn try_encode_names_the_brightness_when_both_are_out_of_range() {
    assert_eq!(
        Err(ConfigError::Brightness(9)),
        try_encode(&user_settings(Mode::Rainbow, 9, 0))
    );
}
