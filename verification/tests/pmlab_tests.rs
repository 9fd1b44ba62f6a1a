use pmlab::bmp280::{
    celsius_parts, compensate_temperature, compensate_temperature_checked, parse_calibration,
    raw_temperature, Calibration,
};
use pmlab::bytes::{
    i16_from_be_bytes, i16_from_le_bytes, i32_from_be_bytes, i32_to_be_bytes, u16_from_be_bytes,
    u16_from_le_bytes, u16_to_be_bytes,
};
use pmlab::eeprom::{read_request, stored_temperature, write_frame, EEPROM_STORAGE_ADDR};
use pmlab::i2c_scan::scan_addresses;
use pmlab::imu::{decode_frame, read_command, ImuSample, ACCEL_XOUT_H, WHO_AM_I};
use pmlab::intensity::{adjust_inensity, can_adjust, LedControl, INITIAL_INTENSITY};
use pmlab::pwm::{compare_value, creeate_pwm_config, update_pwm_config, Lane, PwmConfig, TOP_PWM_VAL};
use pmlab::traffic::{Led, LightAction, TrafficLight};

#[test]
fn pwm_default_matches_hal_defaults() {
    let c = PwmConfig::default();
    assert!(!c.invert_a && !c.invert_b && !c.phase_correct && c.enable);
    assert_eq!(c.divider_bits, 16);
    assert_eq!((c.compare_a, c.compare_b, c.top), (0, 0, 0xffff));
}

#[test]
fn pwm_compare_values() {
    assert_eq!(TOP_PWM_VAL, 37000);
    assert_eq!(compare_value(0), 37000);
    assert_eq!(compare_value(25), 27750);
    assert_eq!(compare_value(50), 18500);
    assert_eq!(compare_value(99), 370);
    assert_eq!(compare_value(100), 0);
    assert_eq!(compare_value(101), 0);
    assert_eq!(compare_value(u16::MAX), 0);
}

#[test]
fn pwm_create_sets_only_the_lane() {
    let a = creeate_pwm_config(25, Lane::LaneA);
    assert_eq!((a.compare_a, a.compare_b, a.top), (27750, 0, 37000));
    let b = creeate_pwm_config(25, Lane::LaneB);
    assert_eq!((b.compare_a, b.compare_b, b.top), (0, 27750, 37000));
    let both = creeate_pwm_config(0, Lane::Both);
    assert_eq!((both.compare_a, both.compare_b), (37000, 37000));
    assert!(both.enable);
    assert_eq!(both.divider_bits, 16);
}

#[test]
fn pwm_update_keeps_other_settings() {
    let mut c = creeate_pwm_config(0, Lane::Both);
    update_pwm_config(&mut c, 100, Lane::LaneA);
    assert_eq!((c.compare_a, c.compare_b, c.top), (0, 37000, 37000));
    update_pwm_config(&mut c, 200, Lane::LaneB);
    assert_eq!((c.compare_a, c.compare_b), (0, 0));
    update_pwm_config(&mut c, 50, Lane::Both);
    assert_eq!((c.compare_a, c.compare_b), (18500, 18500));
}

#[test]
fn pwm_both_equals_a_then_b() {
    let mut x = creeate_pwm_config(10, Lane::Both);
    let mut y = x;
    update_pwm_config(&mut x, 70, Lane::LaneA);
    update_pwm_config(&mut x, 70, Lane::LaneB);
    update_pwm_config(&mut y, 70, Lane::Both);
    assert_eq!(x, y);
}

#[test]
fn pwm_update_idempotent_and_monotone() {
    let mut x = creeate_pwm_config(30, Lane::LaneB);
    let once = {
        update_pwm_config(&mut x, 60, Lane::LaneB);
        x
    };
    update_pwm_config(&mut x, 60, Lane::LaneB);
    assert_eq!(x, once);
    let mut prev = compare_value(0);
    for r in 1..=120u16 {
        let c = compare_value(r);
        assert!(c <= prev);
        prev = c;
    }
}

#[test]
fn pwm_update_after_create() {
    let mut x = creeate_pwm_config(10, Lane::LaneA);
    update_pwm_config(&mut x, 80, Lane::LaneA);
    assert_eq!(x, creeate_pwm_config(80, Lane::LaneA));
}

#[test]
fn byte_decoding() {
    assert_eq!(u16_from_le_bytes(0x70, 0x6B), 0x6B70);
    assert_eq!(u16_from_be_bytes(0x6B, 0x70), 0x6B70);
    assert_eq!(i16_from_le_bytes(0x43, 0x67), 0x6743);
    assert_eq!(i16_from_le_bytes(0x18, 0xFC), -1000);
    assert_eq!(i16_from_be_bytes(0xFC, 0x18), -1000);
    assert_eq!(i16_from_be_bytes(0x80, 0x00), i16::MIN);
    assert_eq!(i16_from_be_bytes(0x7F, 0xFF), i16::MAX);
    assert_eq!(u16_to_be_bytes(0xACDC), [0xAC, 0xDC]);
    assert_eq!(i32_from_be_bytes([0xFF, 0xFF, 0xFF, 0xFE]), -2);
    assert_eq!(i32_from_be_bytes([0x00, 0x00, 0x09, 0xCC]), 2508);
    assert_eq!(i32_to_be_bytes(-2), [0xFF, 0xFF, 0xFF, 0xFE]);
    assert_eq!(i32_to_be_bytes(i32::MIN), [0x80, 0, 0, 0]);
}

#[test]
fn byte_encoding_matches_std() {
    for v in [0i32, 1, -1, 2508, -2508, i32::MAX, i32::MIN, 0x1234_5678, -0x1234_5678] {
        assert_eq!(i32_to_be_bytes(v), v.to_be_bytes());
        assert_eq!(i32_from_be_bytes(v.to_be_bytes()), v);
    }
    for (a, b) in [(0u8, 0u8), (0xFF, 0xFF), (0x12, 0x34), (0x80, 0x01)] {
        assert_eq!(i16_from_le_bytes(a, b), i16::from_le_bytes([a, b]));
        assert_eq!(i16_from_be_bytes(a, b), i16::from_be_bytes([a, b]));
        assert_eq!(u16_from_le_bytes(a, b), u16::from_le_bytes([a, b]));
    }
}

#[test]
fn eeprom_read_back_what_was_written() {
    assert_eq!(EEPROM_STORAGE_ADDR, 0xACDC);
    assert_eq!(read_request(), [0xAC, 0xDC]);
    for t in [2508i32, -2508, 0, -1, i32::MAX, i32::MIN] {
        let f = write_frame(t);
        assert_eq!(&f[0..2], &[0xAC, 0xDC]);
        assert_eq!(stored_temperature([f[2], f[3], f[4], f[5]]), t);
    }
    assert_eq!(write_frame(2508), [0xAC, 0xDC, 0x00, 0x00, 0x09, 0xCC]);
}

#[test]
fn eeprom_write_back_what_was_read() {
    let b = [0x9A, 0x01, 0xFF, 0x00];
    let f = write_frame(stored_temperature(b));
    assert_eq!(&f[2..6], &b);
}

#[test]
fn bmp280_calibration_and_raw() {
    let cal = parse_calibration([0x70, 0x6B, 0x43, 0x67, 0x18, 0xFC]);
    assert_eq!(cal, Calibration { dig_t1: 27504, dig_t2: 26435, dig_t3: -1000 });
    assert_eq!(raw_temperature([0x7E, 0xED, 0x00]), 519888);
    assert_eq!(raw_temperature([0xFF, 0xFF, 0xFF]), 0xF_FFFF);
    assert_eq!(raw_temperature([0x00, 0x00, 0x0F]), 0);
}

#[test]
fn bmp280_datasheet_example() {
    let cal = Calibration { dig_t1: 27504, dig_t2: 26435, dig_t3: -1000 };
    assert_eq!(compensate_temperature(519888, cal), 2508);
    assert_eq!(compensate_temperature_checked(519888, cal), Some(2508));
}

#[test]
fn bmp280_rounds_shifts_towards_minus_infinity() {
    let cal = Calibration { dig_t1: 30000, dig_t2: 100, dig_t3: 0 };
    // var1 = ((0 - 60000) * 100) >> 11 = -2930 (floor of -2929.6875)
    // t = (-2930 * 5 + 128) >> 8 = -57 (floor of -56.7)
    assert_eq!(compensate_temperature(0, cal), -57);
}

#[test]
fn bmp280_overflow_is_refused() {
    let cal = Calibration { dig_t1: 0, dig_t2: 32767, dig_t3: 0 };
    assert_eq!(compensate_temperature_checked(0xF_FFFF, cal), None);
    let cal2 = Calibration { dig_t1: 0, dig_t2: 0, dig_t3: 1 };
    assert_eq!(compensate_temperature_checked(0xF_FFFF, cal2), None);
}

#[test]
fn celsius_display_parts() {
    assert_eq!(celsius_parts(2508), (25, 8));
    assert_eq!(celsius_parts(-2508), (-25, 8));
    assert_eq!(celsius_parts(-50), (0, 50));
    assert_eq!(celsius_parts(0), (0, 0));
    assert_eq!(celsius_parts(i32::MAX), (21474836, 47));
}

#[test]
fn imu_commands_and_frame() {
    assert_eq!(read_command(WHO_AM_I), 0xF5);
    assert_eq!(read_command(ACCEL_XOUT_H), 0xC3);
    assert_eq!(read_command(0x80), 0x80);
    let rx: [u8; 15] = [0, 0x40, 0x00, 0xC0, 0x00, 0x00, 0x01, 9, 9, 0x04, 0x10, 0xFB, 0xF0, 0x7F, 0xFF];
    assert_eq!(
        decode_frame(&rx),
        ImuSample { accel_x: 16384, accel_y: -16384, accel_z: 1, gyro_x: 1040, gyro_y: -1040, gyro_z: 32767 }
    );
}

#[test]
fn intensity_steps() {
    assert_eq!(INITIAL_INTENSITY, 50);
    assert_eq!(adjust_inensity(50, LedControl::Increase), 55);
    assert_eq!(adjust_inensity(50, LedControl::Decrease), 45);
    assert_eq!(adjust_inensity(adjust_inensity(50, LedControl::Increase), LedControl::Decrease), 50);
    assert!(can_adjust(5, LedControl::Decrease));
    assert!(!can_adjust(4, LedControl::Decrease));
    assert!(can_adjust(65530, LedControl::Increase));
    assert!(!can_adjust(65531, LedControl::Increase));
}

fn lit(tl: &TrafficLight) -> usize {
    let l = tl.levels();
    [l.green, l.yellow, l.red].iter().filter(|h| !**h).count()
}

#[test]
fn traffic_light_start() {
    let (tl, start) = TrafficLight::new();
    assert_eq!(tl.phase(), 0);
    assert_eq!(
        start,
        vec![LightAction::SetLow(Led::Green), LightAction::SetHigh(Led::Red), LightAction::SetHigh(Led::Yellow)]
    );
    let l = tl.levels();
    assert!(!l.green && l.yellow && l.red);
}

#[test]
fn traffic_light_cycle() {
    let (tl0, _) = TrafficLight::new();
    let (tl1, a0) = tl0.on_buttons();
    assert_eq!(a0.len(), 11);
    assert_eq!(a0[0], LightAction::WaitMillis(100));
    assert_eq!(a0[1], LightAction::Toggle(Led::Green));
    assert_eq!(a0[10], LightAction::SetLow(Led::Yellow));
    assert_eq!(a0.iter().filter(|a| **a == LightAction::Toggle(Led::Yellow)).count(), 4);
    assert_eq!(tl1.phase(), 1);
    assert_eq!(lit(&tl1), 1);
    assert!(!tl1.levels().yellow);
    let (tl2, a1) = tl1.on_buttons();
    assert_eq!(
        a1,
        vec![LightAction::WaitMillis(100), LightAction::Toggle(Led::Yellow), LightAction::Toggle(Led::Red)]
    );
    assert_eq!(tl2.phase(), 2);
    assert!(!tl2.levels().red);
    assert_eq!(lit(&tl2), 1);
    let (tl3, a2) = tl2.on_buttons();
    assert_eq!(
        a2,
        vec![LightAction::WaitMillis(100), LightAction::Toggle(Led::Red), LightAction::Toggle(Led::Green)]
    );
    assert_eq!(tl3.phase(), 0);
    assert_eq!(tl3.levels(), tl0.levels());
}

#[test]
fn i2c_scan_range() {
    let a = scan_addresses();
    assert_eq!(a.len(), 112);
    assert_eq!(a[0], 0x08);
    assert_eq!(a[111], 0x77);
    assert!(a.windows(2).all(|w| w[1] == w[0] + 1));
}

#[test]
fn intensity_run_of_presses() {
    let (up, down) = (LedControl::Increase, LedControl::Decrease);
    let events = [up, up, down, up, down, down, down, up];
    let mut intensity = INITIAL_INTENSITY;
    let (mut ups, mut downs) = (0i32, 0i32);
    for e in events {
        let before = intensity;
        assert!(can_adjust(intensity, e));
        intensity = adjust_inensity(intensity, e);
        match e {
            LedControl::Increase => {
                ups += 1;
                assert_eq!(intensity, before + 5);
            }
            LedControl::Decrease => {
                downs += 1;
                assert_eq!(intensity, before - 5);
            }
        }
        assert_eq!(intensity % 5, 0);
        assert_eq!(intensity as i32, 50 + 5 * (ups - downs));
    }
    assert_eq!(intensity, 50);
}
