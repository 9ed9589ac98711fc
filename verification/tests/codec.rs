use volcano_bridge::utils::{
    HeatingCoolingState, Temperature, EXTERNAL_FLOOR_HUNDREDTHS, TEMP_OFFSET_HUNDREDTHS,
};

#[test]
fn test_mode_decode_cooling() {
    assert_eq!(
        HeatingCoolingState::from_device_val(vec![0x23, 0x30]),
        HeatingCoolingState::Cooling
    );
}

#[test]
fn test_mode_decode_heating() {
    assert_eq!(
        HeatingCoolingState::from_device_val(vec![0x23, 0x00]),
        HeatingCoolingState::Heating
    );
}

#[test]
fn test_mode_decode_off() {
    assert_eq!(
        HeatingCoolingState::from_device_val(vec![0x00, 0x00]),
        HeatingCoolingState::Off
    );
}

#[test]
fn test_mode_decode_air_only_is_off() {
    // air-without-heat is indistinguishable from Off on the wire
    assert_eq!(
        HeatingCoolingState::from_device_val(vec![0x00, 0x30]),
        HeatingCoolingState::Off
    );
}

#[test]
fn test_mode_decode_short_input_is_off() {
    assert_eq!(HeatingCoolingState::from_device_val(vec![]), HeatingCoolingState::Off);
    assert_eq!(HeatingCoolingState::from_device_val(vec![0x23]), HeatingCoolingState::Off);
}

#[test]
fn test_mode_external_values() {
    assert_eq!(HeatingCoolingState::Off.homekit_val(), 0);
    assert_eq!(HeatingCoolingState::Heating.homekit_val(), 1);
    assert_eq!(HeatingCoolingState::Cooling.homekit_val(), 2);
    assert_eq!(HeatingCoolingState::from_homekit_val(1), HeatingCoolingState::Heating);
    assert_eq!(HeatingCoolingState::from_homekit_val(2), HeatingCoolingState::Cooling);
    assert_eq!(HeatingCoolingState::from_homekit_val(0), HeatingCoolingState::Off);
    assert_eq!(HeatingCoolingState::from_homekit_val(3), HeatingCoolingState::Off);
    assert_eq!(HeatingCoolingState::from_homekit_val(255), HeatingCoolingState::Off);
}

#[test]
fn test_mode_external_round_trip() {
    for m in [
        HeatingCoolingState::Off,
        HeatingCoolingState::Heating,
        HeatingCoolingState::Cooling,
    ] {
        assert_eq!(HeatingCoolingState::from_homekit_val(m.homekit_val()), m);
    }
}

#[test]
fn test_temp_decode_scenario() {
    // wire bytes [0xCD, 0x00] are little-endian 205 tenths, i.e. 20.5 degrees
    let t = Temperature::from_device_val(vec![0xCD, 0x00]);
    assert_eq!(t.hundredths, 2050);
    assert_eq!(t.hundredths as f64 / 100.0, 20.5);
    // on the accessory scale: 20.5 + 172.22 = 192.72
    let ext = t.homekit_val(true);
    assert_eq!(ext, 2050 + TEMP_OFFSET_HUNDREDTHS);
    assert_eq!(ext, 19272);
    assert!((ext as f64 / 100.0 - 192.72).abs() < 1e-9);
}

#[test]
fn test_temp_wire_round_trip() {
    for tenths in [-32768i64, -206, -1, 0, 1, 205, 32767] {
        let t = Temperature::from_homekit_val(tenths * 10, false);
        let wire = t.device_val();
        let back = Temperature::from_device_val(wire);
        assert_eq!(back, t);
    }
}

#[test]
fn test_temp_zero() {
    assert_eq!(Temperature::zero().hundredths, 0);
}

#[test]
fn test_external_floor_clamp() {
    // even a very negative temperature is never exposed below 10.00 degrees
    let t = Temperature::from_homekit_val(-500_000_00, false);
    assert_eq!(t.homekit_val(true), EXTERNAL_FLOOR_HUNDREDTHS);
    assert_eq!(t.homekit_val(true), 1000);
    assert_eq!(t.homekit_val(false), 1000);
    let cold = Temperature::from_device_val(vec![0x00, 0x80]);
    assert_eq!(cold.hundredths, -327680);
    assert_eq!(cold.homekit_val(true), 1000);
}

#[test]
fn test_external_scale_removed_on_the_way_in() {
    let t = Temperature::from_homekit_val(19272, true);
    assert_eq!(t.hundredths, 2050);
    let unscaled = Temperature::from_homekit_val(19272, false);
    assert_eq!(unscaled.hundredths, 19272);
}

#[test]
fn test_encode_rounds_half_away_from_zero() {
    // 205.5 tenths rounds up to 206 = 0xCE
    let up = Temperature::from_homekit_val(2055, false);
    assert_eq!(up.device_val(), vec![0xCE, 0x00]);
    // 205.4 tenths rounds down to 205 = 0xCD
    let down = Temperature::from_homekit_val(2054, false);
    assert_eq!(down.device_val(), vec![0xCD, 0x00]);
    // -205.5 tenths rounds away from zero to -206 = 0xFF32 two's complement
    let neg = Temperature::from_homekit_val(-2055, false);
    assert_eq!(neg.device_val(), vec![0x32, 0xFF]);
    // -205.4 tenths rounds to -205 = 0xFF33
    let neg_down = Temperature::from_homekit_val(-2054, false);
    assert_eq!(neg_down.device_val(), vec![0x33, 0xFF]);
}

#[test]
fn test_encode_saturates_to_wire_range() {
    let big = Temperature::from_homekit_val(999_000_000, false);
    assert_eq!(big.device_val(), vec![0xFF, 0x7F]);
    let small = Temperature::from_homekit_val(-999_000_000, false);
    assert_eq!(small.device_val(), vec![0x00, 0x80]);
}

#[test]
fn test_wire_negative_decode() {
    // 0xFF32 is -206 tenths
    let t = Temperature::from_device_val(vec![0x32, 0xFF]);
    assert_eq!(t.hundredths, -2060);
}
