use bmi160::AccelerometerPowerMode;
use bmi160::GyroscopePowerMode;
use bmi160::MagnetometerPowerMode;
use bmi160::UndersizedBuffer;
use bmi160::parse_interupts;
use bmi160::parse_power_mode;
use bmi160::parse_sensor_data;
use bmi160::parse_status;

#[test]
fn status_all_bits_clear() {
    let s = parse_status(0x00);
    assert!(!s.drdy_acc);
    assert!(!s.drdy_gyr);
    assert!(!s.drdy_mag);
    assert!(!s.nvm_rdy);
    assert!(!s.foc_rdy);
    assert!(!s.mag_man_op);
    assert!(!s.gyr_self_test_ok);
}

#[test]
fn status_all_bits_set() {
    let s = parse_status(0xFF);
    assert!(s.drdy_acc);
    assert!(s.drdy_gyr);
    assert!(s.drdy_mag);
    assert!(s.nvm_rdy);
    assert!(s.foc_rdy);
    assert!(s.mag_man_op);
    assert!(s.gyr_self_test_ok);
}

#[test]
fn status_one_flag_per_bit() {
    assert!(parse_status(0x80).drdy_acc);
    assert!(!parse_status(0x7F).drdy_acc);
    assert!(parse_status(0x40).drdy_gyr);
    assert!(!parse_status(0xBF).drdy_gyr);
    assert!(parse_status(0x20).drdy_mag);
    assert!(!parse_status(0xDF).drdy_mag);
    assert!(parse_status(0x10).nvm_rdy);
    assert!(!parse_status(0xEF).nvm_rdy);
    assert!(parse_status(0x08).foc_rdy);
    assert!(!parse_status(0xF7).foc_rdy);
    assert!(parse_status(0x04).mag_man_op);
    assert!(!parse_status(0xFB).mag_man_op);
    assert!(parse_status(0x02).gyr_self_test_ok);
    assert!(!parse_status(0xFD).gyr_self_test_ok);
}

#[test]
fn status_lowest_bit_is_ignored() {
    let s = parse_status(0x01);
    assert!(!s.drdy_acc);
    assert!(!s.drdy_gyr);
    assert!(!s.drdy_mag);
    assert!(!s.nvm_rdy);
    assert!(!s.foc_rdy);
    assert!(!s.mag_man_op);
    assert!(!s.gyr_self_test_ok);
}

#[test]
fn power_mode_all_suspend() {
    let p = parse_power_mode(0x00);
    assert_eq!(p.accelerometer, AccelerometerPowerMode::Suspend);
    assert_eq!(p.magnetometer, MagnetometerPowerMode::Suspend);
    assert_eq!(p.gyroscope, GyroscopePowerMode::Suspend);
}

#[test]
fn power_mode_all_normal() {
    let p = parse_power_mode(0b01_01_01);
    assert_eq!(p.accelerometer, AccelerometerPowerMode::Normal);
    assert_eq!(p.magnetometer, MagnetometerPowerMode::Normal);
    assert_eq!(p.gyroscope, GyroscopePowerMode::Normal);
}

#[test]
fn power_mode_low_power_codes() {
    let p = parse_power_mode(0b10_00_10);
    assert_eq!(p.accelerometer, AccelerometerPowerMode::LowPower);
    assert_eq!(p.magnetometer, MagnetometerPowerMode::LowPower);
    assert_eq!(p.gyroscope, GyroscopePowerMode::Suspend);
}

#[test]
fn power_mode_gyroscope_reserved_and_fast_start_up() {
    assert_eq!(parse_power_mode(0b00_10_00).gyroscope, GyroscopePowerMode::Reserved);
    assert_eq!(parse_power_mode(0b00_11_00).gyroscope, GyroscopePowerMode::FastStartUp);
}

#[test]
fn power_mode_accelerometer_code_three_falls_back_to_normal() {
    let p = parse_power_mode(0b11_00_00);
    assert_eq!(p.accelerometer, AccelerometerPowerMode::Normal);
    assert_eq!(p.magnetometer, MagnetometerPowerMode::Suspend);
    assert_eq!(p.gyroscope, GyroscopePowerMode::Suspend);
}

#[test]
fn power_mode_magnetometer_code_three_falls_back_to_normal() {
    let p = parse_power_mode(0b00_00_11);
    assert_eq!(p.magnetometer, MagnetometerPowerMode::Normal);
    assert_eq!(p.accelerometer, AccelerometerPowerMode::Suspend);
    assert_eq!(p.gyroscope, GyroscopePowerMode::Suspend);
}

#[test]
fn power_mode_upper_bits_are_ignored() {
    let p = parse_power_mode(0b11_01_01_01);
    assert_eq!(p.accelerometer, AccelerometerPowerMode::Normal);
    assert_eq!(p.magnetometer, MagnetometerPowerMode::Normal);
    assert_eq!(p.gyroscope, GyroscopePowerMode::Normal);
}

#[test]
fn sensor_sample_all_ones_is_minus_one() {
    let s = parse_sensor_data(&[0xFF, 0xFF, 0xFF, 0xFF, 0xFF, 0xFF]).unwrap();
    assert_eq!(s.x, -1);
    assert_eq!(s.y, -1);
    assert_eq!(s.z, -1);
}

#[test]
fn sensor_sample_most_negative_value() {
    let s = parse_sensor_data(&[0x00, 0x80, 0x00, 0x00, 0x00, 0x00]).unwrap();
    assert_eq!(s.x, -32768);
    assert_eq!(s.y, 0);
    assert_eq!(s.z, 0);
}

#[test]
fn sensor_sample_little_endian_pairs() {
    let s = parse_sensor_data(&[0x34, 0x12, 0x78, 0x56, 0xCD, 0xAB]).unwrap();
    assert_eq!(s.x, 0x1234);
    assert_eq!(s.y, 0x5678);
    assert_eq!(s.z, -21555);
}

#[test]
fn sensor_sample_largest_positive_value() {
    let s = parse_sensor_data(&[0xFF, 0x7F, 0x01, 0x00, 0x00, 0x80]).unwrap();
    assert_eq!(s.x, 32767);
    assert_eq!(s.y, 1);
    assert_eq!(s.z, -32768);
}

#[test]
fn sensor_sample_undersized_buffer_is_an_error() {
    let r = parse_sensor_data(&[0x01, 0x02, 0x03, 0x04, 0x05]);
    assert_eq!(r.unwrap_err(), UndersizedBuffer { expected: 6, got: 5 });
    let r = parse_sensor_data(&[]);
    assert_eq!(r.unwrap_err(), UndersizedBuffer { expected: 6, got: 0 });
}

#[test]
fn sensor_sample_reads_only_the_first_six_bytes() {
    let s = parse_sensor_data(&[0x01, 0x00, 0x02, 0x00, 0x03, 0x00, 0xFF, 0xFF]).unwrap();
    assert_eq!(s.x, 1);
    assert_eq!(s.y, 2);
    assert_eq!(s.z, 3);
}

#[test]
fn interrupts_any_motion_x_only() {
    let i = parse_interupts(&[0x01, 0x00, 0x00]).unwrap();
    assert!(i.any_motion_x);
    assert!(!i.any_motion_y);
    assert!(!i.any_motion_z);
    assert!(!i.double_tap);
    assert!(!i.single_tap);
    assert!(!i.orientation);
    assert!(!i.flat);
    assert!(!i.high_g_x);
    assert!(!i.high_g_y);
    assert!(!i.high_g_z);
    assert!(!i.low_g);
    assert!(!i.drdy);
    assert!(!i.fifo_full);
    assert!(!i.fifo_watermark);
    assert!(!i.no_or_slow_motion_x);
    assert!(!i.no_or_slow_motion_y);
    assert!(!i.no_or_slow_motion_z);
    assert!(!i.step_detector);
}

#[test]
fn interrupts_first_byte_flags() {
    let i = parse_interupts(&[0b1111_0110, 0x00, 0x00]).unwrap();
    assert!(!i.any_motion_x);
    assert!(i.any_motion_y);
    assert!(i.any_motion_z);
    assert!(i.double_tap);
    assert!(i.single_tap);
    assert!(i.orientation);
    assert!(i.flat);
    let j = parse_interupts(&[0b0000_1000, 0x00, 0x00]).unwrap();
    assert!(!j.any_motion_x);
    assert!(!j.any_motion_y);
    assert!(!j.any_motion_z);
    assert!(!j.double_tap);
    assert!(!j.single_tap);
    assert!(!j.orientation);
    assert!(!j.flat);
}

#[test]
fn interrupts_second_byte_flags() {
    let i = parse_interupts(&[0x00, 0b0111_1111, 0x00]).unwrap();
    assert!(i.high_g_x);
    assert!(i.high_g_y);
    assert!(i.high_g_z);
    assert!(i.low_g);
    assert!(i.drdy);
    assert!(i.fifo_full);
    assert!(i.fifo_watermark);
    assert!(!i.any_motion_x);
    let j = parse_interupts(&[0x00, 0b1000_0000, 0x00]).unwrap();
    assert!(!j.high_g_x);
    assert!(!j.high_g_y);
    assert!(!j.high_g_z);
    assert!(!j.low_g);
    assert!(!j.drdy);
    assert!(!j.fifo_full);
    assert!(!j.fifo_watermark);
}

#[test]
fn interrupts_third_byte_flags() {
    let i = parse_interupts(&[0x00, 0x00, 0b0000_1111]).unwrap();
    assert!(i.no_or_slow_motion_x);
    assert!(i.no_or_slow_motion_y);
    assert!(i.no_or_slow_motion_z);
    assert!(i.step_detector);
    let j = parse_interupts(&[0x00, 0x00, 0b1111_0000]).unwrap();
    assert!(!j.no_or_slow_motion_x);
    assert!(!j.no_or_slow_motion_y);
    assert!(!j.no_or_slow_motion_z);
    assert!(!j.step_detector);
}

#[test]
fn interrupts_undersized_buffer_is_an_error() {
    let r = parse_interupts(&[0x01, 0x02]);
    assert_eq!(r.unwrap_err(), UndersizedBuffer { expected: 3, got: 2 });
    let r = parse_interupts(&[]);
    assert_eq!(r.unwrap_err(), UndersizedBuffer { expected: 3, got: 0 });
}
