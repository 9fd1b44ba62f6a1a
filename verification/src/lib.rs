//! Verified logic of a set of RP2040 lab programs: PWM duty configuration,
//! button-driven state machines and sensor data decoding.

pub mod bmp280;
pub mod bytes;
pub mod eeprom;
pub mod i2c_scan;
pub mod imu;
pub mod intensity;
pub mod pwm;
pub mod traffic;
